//! Fanout: a change on a server is told to the clients and the peer hosts
//! with interest in it. Delivery is best effort.

use vstd::prelude::*;
use crate::types::Uuid;
use crate::types::user::UserRef;
use crate::types::ws::{ClientWsUpdate, FederationWsUpdate};
use crate::ws::client_manager::ClientWsManager;
use crate::ws::federation_manager::FederationWsManager;
use crate::ws::pools::{
    all_ids, client_targets_of_any, federation_targets_of_any, is_send_round,
};
use crate::config::{local_host_spec, ServerConfig};
use crate::ws::routing::{
    is_remote_hosts_of, local_members, local_users_of, remote_hosts_of, RoutingIndex,
};

verus! {

/// Who is to hear of a change on a server.
#[derive(Clone, Debug, PartialEq, Eq)]
pub struct ServerFanoutTargets {
    /// The users of this host with a membership on the server.
    pub local_users: Vec<UserRef>,
    /// The peer hosts with a member of the server.
    pub remote_hosts: Vec<String>,
}

/// A change on a server, as clients and as peer hosts are told of it.
#[derive(Clone, Debug, PartialEq, Eq)]
pub struct ServerChange {
    pub server_id: Uuid,
    pub client_update: ClientWsUpdate,
    pub federation_update: FederationWsUpdate,
}

impl Default for ServerFanoutTargets {
    fn default() -> (r: Self)
        ensures
            r.local_users@.len() == 0,
            r.remote_hosts@.len() == 0,
    {
        ServerFanoutTargets { local_users: Vec::new(), remote_hosts: Vec::new() }
    }
}

/// The targets of a change on a server whose local members are `members`:
/// the members on this host, and the other hosts of members, each once.
pub fn resolve_server_targets(index: &RoutingIndex, members: &Vec<UserRef>) -> (r:
    ServerFanoutTargets)
    ensures
        r.local_users@ == local_members(members@, index.local()),
        is_remote_hosts_of(r.remote_hosts@, members@, index.local()),
{
    let local_users = index.users_for_local_server(members);
    let remote_hosts = index.hosts_for_server(members);
    ServerFanoutTargets { local_users, remote_hosts }
}

/// The targets of a change on a server of the host that `config`
/// describes, whose local members are `members`.
pub fn resolve_targets(config: &ServerConfig, members: &Vec<UserRef>) -> (r: ServerFanoutTargets)
    ensures
        r.local_users@ == local_members(
            members@,
            local_host_spec(config.local_host_raw@, config.port),
        ),
        is_remote_hosts_of(
            r.remote_hosts@,
            members@,
            local_host_spec(config.local_host_raw@, config.port),
        ),
{
    ServerFanoutTargets {
        local_users: local_users_of(config, members),
        remote_hosts: remote_hosts_of(config, members),
    }
}

/// Tells the targets of a change: the client update goes once to each
/// connection of each local user, the federation update once to the
/// connection of each remote host. A connection whose channel refuses is
/// taken out of its pool; nothing is sent again.
pub fn fanout_update(
    client_ws_manager: &mut ClientWsManager,
    federation_ws_manager: &mut FederationWsManager,
    targets: ServerFanoutTargets,
    client_update: ClientWsUpdate,
    federation_update: FederationWsUpdate,
)
    requires
        old(client_ws_manager).wf(),
        old(federation_ws_manager).wf(),
    ensures
        final(client_ws_manager).wf(),
        final(federation_ws_manager).wf(),
        final(federation_ws_manager).pending == old(federation_ws_manager).pending,
        exists|sent: usize|
            is_send_round(
                old(client_ws_manager)@,
                final(client_ws_manager)@,
                client_targets_of_any(
                    old(client_ws_manager).pool.table.slots@,
                    targets.local_users@,
                ),
                sent,
            ),
        exists|sent: usize|
            is_send_round(
                old(federation_ws_manager).pool@,
                final(federation_ws_manager).pool@,
                federation_targets_of_any(
                    old(federation_ws_manager).pool.table.slots@,
                    targets.remote_hosts@,
                ),
                sent,
            ),
{
    let _ = client_ws_manager.send_update_to_users(&targets.local_users, client_update);
    let _ = federation_ws_manager.send_update_to_hosts(&targets.remote_hosts, federation_update);
}

/// Tells a change on a server to its targets; see `fanout_update`.
pub fn tell_change(
    client_ws_manager: &mut ClientWsManager,
    federation_ws_manager: &mut FederationWsManager,
    targets: ServerFanoutTargets,
    change: ServerChange,
)
    requires
        old(client_ws_manager).wf(),
        old(federation_ws_manager).wf(),
    ensures
        final(client_ws_manager).wf(),
        final(federation_ws_manager).wf(),
        final(federation_ws_manager).pending == old(federation_ws_manager).pending,
        exists|sent: usize|
            is_send_round(
                old(client_ws_manager)@,
                final(client_ws_manager)@,
                client_targets_of_any(
                    old(client_ws_manager).pool.table.slots@,
                    targets.local_users@,
                ),
                sent,
            ),
        exists|sent: usize|
            is_send_round(
                old(federation_ws_manager).pool@,
                final(federation_ws_manager).pool@,
                federation_targets_of_any(
                    old(federation_ws_manager).pool.table.slots@,
                    targets.remote_hosts@,
                ),
                sent,
            ),
{
    fanout_update(
        client_ws_manager,
        federation_ws_manager,
        targets,
        change.client_update,
        change.federation_update,
    )
}

/// Tells every client of this host, and the peer hosts `hosts` where there
/// is an update for them.
pub fn announce(
    client_ws_manager: &mut ClientWsManager,
    federation_ws_manager: &mut FederationWsManager,
    update: ClientWsUpdate,
    hosts: &Vec<String>,
    federation_update: Option<FederationWsUpdate>,
)
    requires
        old(client_ws_manager).wf(),
        old(federation_ws_manager).wf(),
    ensures
        final(client_ws_manager).wf(),
        final(federation_ws_manager).wf(),
        final(federation_ws_manager).pending == old(federation_ws_manager).pending,
        exists|sent: usize|
            is_send_round(
                old(client_ws_manager)@,
                final(client_ws_manager)@,
                all_ids(old(client_ws_manager).pool.table.slots@),
                sent,
            ),
        match federation_update {
            Some(_) => exists|sent: usize|
                is_send_round(
                    old(federation_ws_manager).pool@,
                    final(federation_ws_manager).pool@,
                    federation_targets_of_any(
                        old(federation_ws_manager).pool.table.slots@,
                        hosts@,
                    ),
                    sent,
                ),
            None => final(federation_ws_manager).pool@ == old(federation_ws_manager).pool@,
        },
{
    let _ = client_ws_manager.broadcast_update(update);
    match federation_update {
        Some(told) => {
            let _ = federation_ws_manager.send_update_to_hosts(hosts, told);
        },
        None => {},
    }
}

} // verus!
