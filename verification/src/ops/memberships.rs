//! Operations on memberships.

use vstd::prelude::*;
use vstd::string::*;
use crate::auth::Session;
use crate::config::{local_host_spec, ServerConfig};
use crate::error::ApiResult;
use crate::ops::{clone_host, is_placement, Dispatch, Operation, RemoteCall};
use crate::ops::fanout::{ServerChange, ServerFanoutTargets};
use crate::ops::local::{LocalEffect, LocalFlow, LocalStep, StoreQuery};
use crate::types::Uuid;
use crate::types::server::{
    FullServerMembership, NewServerMembership, ServerMember, ServerMembership,
};
use crate::types::user::{same_user_spec, UserRef};
use crate::types::ws::{ClientWsUpdate, FederationWsRequest, FederationWsUpdate};
use crate::util::{pad_host_spec, same_host};
use crate::ws::pools::is_one_of;

pub mod auth;

verus! {

/// Creates a membership. The host of the server decides where. Decides where
/// the operation is carried out.
pub fn create(
    config: &ServerConfig,
    session: &Session,
    new_membership: &NewServerMembership,
) -> (r: ApiResult<Dispatch>)
    ensures
        is_placement(
            r,
            (Operation::MembershipsCreate { new_membership: *new_membership }).placement(
                local_host_spec(config.local_host_raw@, config.port),
                *session,
            ),
        ),
{
    let op = Operation::MembershipsCreate { new_membership: new_membership.clone() };
    op.place(config, session)
}

/// Lists the members of a server. Open to anyone. Decides where the operation is carried out.
pub fn get_members_by_server(
    config: &ServerConfig,
    session: &Session,
    server_id: Uuid,
    target_host: &Option<String>,
) -> (r: ApiResult<Dispatch>)
    ensures
        is_placement(
            r,
            (Operation::MembershipsGetMembersByServer {
                server_id,
                target_host: *target_host,
            }).placement(
                local_host_spec(config.local_host_raw@, config.port),
                *session,
            ),
        ),
{
    let op = Operation::MembershipsGetMembersByServer {
        server_id,
        target_host: clone_host(target_host),
    };
    op.place(config, session)
}

/// Gets one member of a server. Open to anyone. Decides where the operation is carried out.
pub fn get_member_by_user_and_server(
    config: &ServerConfig,
    session: &Session,
    server_id: Uuid,
    user_ref: &UserRef,
    target_host: &Option<String>,
) -> (r: ApiResult<Dispatch>)
    ensures
        is_placement(
            r,
            (Operation::MembershipsGetByUserAndServer {
                server_id,
                user_ref: *user_ref,
                target_host: *target_host,
            }).placement(
                local_host_spec(config.local_host_raw@, config.port),
                *session,
            ),
        ),
{
    let op = Operation::MembershipsGetByUserAndServer {
        server_id,
        user_ref: user_ref.clone(),
        target_host: clone_host(target_host),
    };
    op.place(config, session)
}

/// Lists the memberships of a user, native and mirrored. This host answers
/// from its own store always, so the work starts at once: the store is
/// asked for the memberships of the user, and its answer is the result.
pub fn get_by_user(
    config: &ServerConfig,
    session: &Session,
    user_ref: &UserRef,
) -> (r: LocalStep)
    ensures
        r.effect == LocalEffect::Ask(StoreQuery::MembershipsByUser(*user_ref)),
        r.next == LocalFlow::Reading,
{
    LocalFlow::start(config, session, Operation::MembershipsGetByUser { user_ref: user_ref.clone() })
}

/// Ends a membership: the acting user leaves a server. Decides where the operation is carried out.
pub fn delete(
    config: &ServerConfig,
    session: &Session,
    server_id: Uuid,
    user_ref: &UserRef,
    target_host: &Option<String>,
) -> (r: ApiResult<Dispatch>)
    ensures
        is_placement(
            r,
            (Operation::MembershipsDelete {
                server_id,
                user_ref: *user_ref,
                target_host: *target_host,
            }).placement(
                local_host_spec(config.local_host_raw@, config.port),
                *session,
            ),
        ),
{
    let op = Operation::MembershipsDelete {
        server_id,
        user_ref: user_ref.clone(),
        target_host: clone_host(target_host),
    };
    op.place(config, session)
}

/// Whether the user of a new membership on a local server is a user of
/// another host: the padded form of the user's host is not that of the
/// local host. Such a user must be known to the local store before the
/// membership is written.
pub fn is_for_remote_user(config: &ServerConfig, new_membership: &NewServerMembership) -> (r: bool)
    ensures
        r == (pad_host_spec(new_membership.user_ref.host@) != pad_host_spec(
            local_host_spec(config.local_host_raw@, config.port),
        )),
{
    !same_host(new_membership.user_ref.host.as_str(), config.local_host().as_str())
}

/// The request that asks the home host of the user of `new_membership` for
/// the user's record. It is made for no user.
pub fn remote_user_lookup(new_membership: &NewServerMembership) -> (r: RemoteCall)
    ensures
        r == (RemoteCall {
            host: new_membership.user_ref.host,
            delegated_user_ref: None,
            request: FederationWsRequest::UsersGetByRef { user_ref: new_membership.user_ref },
        }),
{
    RemoteCall {
        host: new_membership.user_ref.host.clone(),
        delegated_user_ref: None,
        request: FederationWsRequest::UsersGetByRef { user_ref: new_membership.user_ref.clone() },
    }
}

/// The full membership that was written on the local store: the server and
/// the times of `membership`, the user of `member`.
pub fn written_membership(membership: ServerMembership, member: ServerMember) -> (r:
    FullServerMembership)
    ensures
        r == (FullServerMembership {
            server: membership.server,
            user: member.user,
            role: membership.role,
            joined_at: membership.joined_at,
            updated_at: membership.updated_at,
            synced_at: membership.synced_at,
        }),
{
    FullServerMembership {
        server: membership.server,
        user: member.user,
        role: membership.role,
        joined_at: membership.joined_at,
        updated_at: membership.updated_at,
        synced_at: membership.synced_at,
    }
}

/// The change to tell once `membership` was written on the local store.
pub fn created(membership: &FullServerMembership) -> (r: ServerChange)
    ensures
        r == (ServerChange {
            server_id: membership.server.id,
            client_update: ClientWsUpdate::MembershipUpserted(*membership),
            federation_update: FederationWsUpdate::MembershipUpserted(*membership),
        }),
{
    ServerChange {
        server_id: membership.server.id,
        client_update: ClientWsUpdate::MembershipUpserted(membership.clone()),
        federation_update: FederationWsUpdate::MembershipUpserted(membership.clone()),
    }
}

/// The change to tell once `user_ref` left the server `server_id`.
pub fn deleted(server_id: Uuid, user_ref: &UserRef) -> (r: ServerChange)
    ensures
        r == (ServerChange {
            server_id,
            client_update: ClientWsUpdate::MembershipDeleted { server_id, user_ref: *user_ref },
            federation_update: FederationWsUpdate::MembershipDeleted {
                server_id,
                user_ref: *user_ref,
            },
        }),
{
    ServerChange {
        server_id,
        client_update: ClientWsUpdate::MembershipDeleted { server_id, user_ref: user_ref.clone() },
        federation_update: FederationWsUpdate::MembershipDeleted {
            server_id,
            user_ref: user_ref.clone(),
        },
    }
}

/// Whether `users` holds a reference to the user of `user_ref`.
pub open spec fn has_user(users: Seq<UserRef>, user_ref: UserRef) -> bool {
    exists|k: int| 0 <= k < users.len() && same_user_spec((#[trigger] users[k])@, user_ref@)
}

/// Who is to hear that `user_ref` left a server, from the targets of the
/// server as they were before: the leaving user too, and the user's host
/// where that is another host.
pub fn leave_targets(config: &ServerConfig, targets: ServerFanoutTargets, user_ref: &UserRef) -> (r:
    ServerFanoutTargets)
    ensures
        r.local_users@ == (if has_user(targets.local_users@, *user_ref) {
            targets.local_users@
        } else {
            targets.local_users@.push(*user_ref)
        }),
        r.remote_hosts@ == (if pad_host_spec(user_ref.host@) != pad_host_spec(
            local_host_spec(config.local_host_raw@, config.port),
        ) {
            targets.remote_hosts@.push(user_ref.host)
        } else {
            targets.remote_hosts@
        }),
{
    let mut targets = targets;
    if !is_one_of(user_ref, &targets.local_users) {
        targets.local_users.push(user_ref.clone());
    }
    if !same_host(user_ref.host.as_str(), config.local_host().as_str()) {
        targets.remote_hosts.push(user_ref.host.clone());
    }
    targets
}

} // verus!
