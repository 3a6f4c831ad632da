//! The connection pools of the two transports.
//!
//! A pool holds, for each connection, the channel that feeds its socket and
//! whom the connection was authenticated as. The index from a user to the
//! user's connections, and from a host to its connection, is read off the
//! table, so that the two cannot disagree.
//!
//! Sending is best effort: a connection whose channel refuses a message is
//! taken out of the pool.

use vstd::prelude::*;
use tokio::sync::mpsc::UnboundedSender;
use crate::outside::{channel_send, now_utc};
use crate::types::{Timestamp, Uuid};
use crate::types::user::{same_user_spec, UserRef};
use crate::types::ws::{ClientWsEnvelope, FederationWsEnvelope};
use crate::util::{pad_host_spec, same_host};
use crate::ws::table::{lemma_conn_map_at, slot_index, ConnTable, Slot};

verus! {

/// A connection of a client.
#[derive(Clone, Debug)]
pub struct ClientConn {
    pub sender: UnboundedSender<ClientWsEnvelope>,
    pub user_ref: Option<UserRef>,
    pub connected_at: Timestamp,
}

/// A connection of a peer host.
#[derive(Clone, Debug)]
pub struct FederationConn {
    pub sender: UnboundedSender<FederationWsEnvelope>,
    pub host: Option<String>,
    pub connected_at: Timestamp,
}

/// A connection that a message is to go to, with a handle on its channel.
#[verifier::reject_recursive_types(E)]
pub struct Target<E> {
    pub conn_id: Uuid,
    pub sender: UnboundedSender<E>,
}

/// What became of one round of sends.
pub struct SendReport {
    /// How many channels took the message.
    pub sent: usize,
    /// The connections whose channel refused it, in the order of the targets.
    pub stale: Vec<Uuid>,
    /// What each channel answered, in the order of the targets.
    pub outcomes: Ghost<Seq<bool>>,
}

/// The identifiers of `targets`, in order.
pub open spec fn target_ids<E>(targets: Seq<Target<E>>) -> Seq<Uuid> {
    targets.map_values(|t: Target<E>| t.conn_id)
}

/// How many of `outcomes` are acceptances.
pub open spec fn count_sent(outcomes: Seq<bool>) -> nat
    decreases outcomes.len(),
{
    if outcomes.len() == 0 {
        0
    } else {
        count_sent(outcomes.drop_last()) + if outcomes.last() {
            1nat
        } else {
            0nat
        }
    }
}

/// The identifiers among `ids` whose outcome is a refusal, in order.
pub open spec fn refused_ids(ids: Seq<Uuid>, outcomes: Seq<bool>) -> Seq<Uuid>
    recommends
        ids.len() == outcomes.len(),
    decreases ids.len(),
{
    if ids.len() == 0 || outcomes.len() == 0 {
        Seq::empty()
    } else {
        let rest = refused_ids(ids.drop_last(), outcomes.drop_last());
        if outcomes.last() {
            rest
        } else {
            rest.push(ids.last())
        }
    }
}

/// Whether a round of sends to `ids` that ended with the count `sent` took
/// the pool from `before` to `after`: for some answers of the channels, one
/// for each target, `sent` counts the acceptances, and exactly the
/// connections that refused are gone.
pub open spec fn is_send_round<C>(
    before: Map<Uuid, C>,
    after: Map<Uuid, C>,
    ids: Seq<Uuid>,
    sent: usize,
) -> bool {
    exists|outcomes: Seq<bool>|
        {
            &&& outcomes.len() == ids.len()
            &&& sent == count_sent(outcomes)
            &&& after == before.remove_keys(refused_ids(ids, outcomes).to_set())
        }
}

/// Every refused identifier is one of the targets, and each target is
/// either counted as sent or refused.
pub proof fn lemma_refused_are_targets(ids: Seq<Uuid>, outcomes: Seq<bool>)
    requires
        ids.len() == outcomes.len(),
    ensures
        forall|k: int|
            0 <= k < refused_ids(ids, outcomes).len() ==> ids.contains(
                #[trigger] refused_ids(ids, outcomes)[k],
            ),
        count_sent(outcomes) + refused_ids(ids, outcomes).len() == ids.len(),
    decreases ids.len(),
{
    if ids.len() > 0 {
        let front = ids.drop_last();
        lemma_refused_are_targets(front, outcomes.drop_last());
        let r = refused_ids(ids, outcomes);
        assert forall|k: int| 0 <= k < r.len() implies ids.contains(#[trigger] r[k]) by {
        }
    }
}

/// Offers a copy of `envelope` to the channel of each target, once, in order.
pub fn deliver<E: Clone>(targets: &Vec<Target<E>>, envelope: &E) -> (r: SendReport)
    ensures
        r.outcomes@.len() == targets@.len(),
        r.sent == count_sent(r.outcomes@),
        r.stale@ == refused_ids(target_ids(targets@), r.outcomes@),
{
    let mut sent: usize = 0;
    let mut stale: Vec<Uuid> = Vec::new();
    let ghost mut outcomes: Seq<bool> = Seq::empty();
    let mut i: usize = 0;
    while i < targets.len()
        invariant
            i <= targets.len(),
            outcomes.len() == i,
            sent == count_sent(outcomes),
            sent <= i,
            stale@ == refused_ids(target_ids(targets@).take(i as int), outcomes),
        decreases targets.len() - i,
    {
        let taken = channel_send(&targets[i].sender, envelope.clone());
        proof {
            let ids = target_ids(targets@);
            let next = outcomes.push(taken);
            assert(next.drop_last() =~= outcomes);
            assert(ids.take(i as int + 1).drop_last() =~= ids.take(i as int));
            outcomes = next;
        }
        if taken {
            sent = sent + 1;
        } else {
            stale.push(targets[i].conn_id);
        }
        i = i + 1;
    }
    assert(target_ids(targets@).take(targets@.len() as int) =~= target_ids(targets@));
    SendReport { sent, stale, outcomes: Ghost(outcomes) }
}

/// Whether `conn` is authenticated as `user`, under whatever name of the
/// user's host.
pub open spec fn is_conn_of_user(conn: ClientConn, user: (Seq<char>, Seq<char>)) -> bool {
    conn.user_ref matches Some(u) && same_user_spec(u@, user)
}

/// The connections among `slots` that are authenticated as `user`, in order.
pub open spec fn client_targets(slots: Seq<Slot<ClientConn>>, user: (Seq<char>, Seq<char>)) -> Seq<
    Uuid,
>
    decreases slots.len(),
{
    if slots.len() == 0 {
        Seq::empty()
    } else {
        let rest = client_targets(slots.drop_last(), user);
        if is_conn_of_user(slots.last().conn, user) {
            rest.push(slots.last().conn_id)
        } else {
            rest
        }
    }
}

/// Whether `conn` is authenticated as one of `users`.
pub open spec fn is_conn_of_any(conn: ClientConn, users: Seq<UserRef>) -> bool {
    exists|k: int| 0 <= k < users.len() && is_conn_of_user(conn, #[trigger] users[k]@)
}

/// The connections among `slots` that are authenticated as one of `users`,
/// each once, in order.
pub open spec fn client_targets_of_any(slots: Seq<Slot<ClientConn>>, users: Seq<UserRef>) -> Seq<
    Uuid,
>
    decreases slots.len(),
{
    if slots.len() == 0 {
        Seq::empty()
    } else {
        let rest = client_targets_of_any(slots.drop_last(), users);
        if is_conn_of_any(slots.last().conn, users) {
            rest.push(slots.last().conn_id)
        } else {
            rest
        }
    }
}

/// The identifiers of `slots`, in order.
pub open spec fn all_ids<C>(slots: Seq<Slot<C>>) -> Seq<Uuid> {
    slots.map_values(|s: Slot<C>| s.conn_id)
}

/// A connection is a target for `user` exactly when the pool holds it
/// authenticated as `user`.
pub proof fn lemma_client_targets_contains(
    slots: Seq<Slot<ClientConn>>,
    user: (Seq<char>, Seq<char>),
    id: Uuid,
)
    ensures
        client_targets(slots, user).contains(id) <==> exists|i: int|
            0 <= i < slots.len() && slots[i].conn_id == id && is_conn_of_user(slots[i].conn, user),
    decreases slots.len(),
{
    if slots.len() > 0 {
        let front = slots.drop_last();
        let rest = client_targets(front, user);
        let all = client_targets(slots, user);
        lemma_client_targets_contains(front, user, id);
        if exists|i: int|
            0 <= i < slots.len() && slots[i].conn_id == id && is_conn_of_user(slots[i].conn, user) {
            let i = choose|i: int|
                0 <= i < slots.len() && slots[i].conn_id == id && is_conn_of_user(
                    slots[i].conn,
                    user,
                );
            if i < slots.len() - 1 {
                assert(front[i].conn_id == id);
                let k = choose|k: int| 0 <= k < rest.len() && rest[k] == id;
                assert(all[k] == id);
            } else {
                assert(all[all.len() - 1] == id);
            }
        }
    }
}

/// Whether `user_ref` is one of `users`, under whatever name of its host.
pub fn is_one_of(user_ref: &UserRef, users: &Vec<UserRef>) -> (r: bool)
    ensures
        r == exists|k: int|
            0 <= k < users@.len() && same_user_spec((#[trigger] users@[k])@, user_ref@),
{
    let mut k: usize = 0;
    while k < users.len()
        invariant
            k <= users.len(),
            forall|j: int| 0 <= j < k ==> !same_user_spec((#[trigger] users@[j])@, user_ref@),
        decreases users.len() - k,
    {
        if users[k].same_user(user_ref) {
            return true;
        }
        k = k + 1;
    }
    false
}

/// The pool of client connections.
pub struct ClientWsPool {
    pub table: ConnTable<ClientConn>,
}

impl View for ClientWsPool {
    type V = Map<Uuid, ClientConn>;

    open spec fn view(&self) -> Map<Uuid, ClientConn> {
        self.table@
    }
}

impl ClientWsPool {
    /// Whether the pool is well formed.
    pub open spec fn wf(&self) -> bool {
        self.table.wf()
    }

    /// The connections authenticated as `user`, in the order of the table:
    /// the index by user.
    pub open spec fn connections_of(&self, user: (Seq<char>, Seq<char>)) -> Seq<Uuid> {
        client_targets(self.table.slots@, user)
    }

    /// The pool without connections.
    pub fn new() -> (r: Self)
        ensures
            r.wf(),
            r@ == Map::<Uuid, ClientConn>::empty(),
    {
        ClientWsPool { table: ConnTable::new() }
    }

    /// Puts a connection in, not yet authenticated. A connection that was
    /// there under `conn_id` is replaced.
    pub fn register_connection(&mut self, conn_id: Uuid, sender: UnboundedSender<ClientWsEnvelope>)
        requires
            old(self).wf(),
        ensures
            final(self).wf(),
            exists|at: Timestamp|
                final(self)@ == old(self)@.insert(
                    conn_id,
                    (ClientConn { sender: sender, user_ref: None, connected_at: at }),
                ),
    {
        let connected_at = now_utc();
        let _ = self.table.insert(conn_id, ClientConn { sender, user_ref: None, connected_at });
        assert(self@ == old(self)@.insert(
            conn_id,
            (ClientConn { sender: sender, user_ref: None, connected_at: connected_at }),
        ));
    }

    /// Binds a connection to a user, in place of the user it was bound to.
    /// `false`, and nothing changes, where the pool has no such connection.
    pub fn authenticate_connection(&mut self, conn_id: Uuid, user_ref: UserRef) -> (r: bool)
        requires
            old(self).wf(),
        ensures
            final(self).wf(),
            r == old(self)@.dom().contains(conn_id),
            r ==> final(self)@ == old(self)@.insert(
                conn_id,
                (ClientConn {
                    sender: old(self)@[conn_id].sender,
                    user_ref: Some(user_ref),
                    connected_at: old(self)@[conn_id].connected_at,
                }),
            ),
            !r ==> final(self)@ == old(self)@,
    {
        match self.table.remove(conn_id) {
            Some(conn) => {
                let _ = self.table.insert(
                    conn_id,
                    ClientConn {
                        sender: conn.sender,
                        user_ref: Some(user_ref),
                        connected_at: conn.connected_at,
                    },
                );
                true
            },
            None => {
                false
            },
        }
    }

    /// Takes a connection out. `false` where the pool has no such connection.
    pub fn deregister_connection(&mut self, conn_id: Uuid) -> (r: bool)
        requires
            old(self).wf(),
        ensures
            final(self).wf(),
            r == old(self)@.dom().contains(conn_id),
            final(self)@ == old(self)@.remove(conn_id),
    {
        self.table.remove(conn_id).is_some()
    }

    /// The user that a connection is authenticated as, if any.
    pub fn authenticated_user_ref(&self, conn_id: Uuid) -> (r: Option<UserRef>)
        requires
            self.wf(),
        ensures
            r == (if self@.dom().contains(conn_id) {
                self@[conn_id].user_ref
            } else {
                None
            }),
    {
        match self.table.get(conn_id) {
            Some(conn) => match &conn.user_ref {
                Some(u) => Some(u.clone()),
                None => None,
            },
            None => None,
        }
    }

    /// Sends to one connection. `true` where its channel took the envelope;
    /// where it refused, the connection is taken out.
    pub fn send_to_connection(&mut self, conn_id: Uuid, envelope: ClientWsEnvelope) -> (r: bool)
        requires
            old(self).wf(),
        ensures
            final(self).wf(),
            r ==> old(self)@.dom().contains(conn_id) && final(self)@ == old(self)@,
            !r ==> final(self)@ == old(self)@.remove(conn_id),
    {
        let taken = match self.table.get(conn_id) {
            Some(conn) => channel_send(&conn.sender, envelope),
            None => false,
        };
        if taken {
            return true;
        }
        let _ = self.deregister_connection(conn_id);
        false
    }

    /// The connections of `user_ref` with a handle on each channel.
    pub fn targets_for_user(&self, user_ref: &UserRef) -> (r: Vec<Target<ClientWsEnvelope>>)
        requires
            self.wf(),
        ensures
            target_ids(r@) == self.connections_of(user_ref@),
    {
        let mut out: Vec<Target<ClientWsEnvelope>> = Vec::new();
        let mut i: usize = 0;
        while i < self.table.slots.len()
            invariant
                i <= self.table.slots.len(),
                target_ids(out@) == client_targets(self.table.slots@.take(i as int), user_ref@),
            decreases self.table.slots.len() - i,
        {
            let slot = &self.table.slots[i];
            let is_target = match &slot.conn.user_ref {
                Some(u) => u.same_user(user_ref),
                None => false,
            };
            proof {
                let slots = self.table.slots@;
                assert(slots.take(i as int + 1).drop_last() =~= slots.take(i as int));
            }
            if is_target {
                out.push(Target { conn_id: slot.conn_id, sender: slot.conn.sender.clone() });
            }
            i = i + 1;
        }
        assert(self.table.slots@.take(self.table.slots@.len() as int) =~= self.table.slots@);
        out
    }

    /// The connections of any of `users`, each once, with a handle on each channel.
    pub fn targets_for_users(&self, users: &Vec<UserRef>) -> (r: Vec<Target<ClientWsEnvelope>>)
        requires
            self.wf(),
        ensures
            target_ids(r@) == client_targets_of_any(self.table.slots@, users@),
    {
        let mut out: Vec<Target<ClientWsEnvelope>> = Vec::new();
        let mut i: usize = 0;
        while i < self.table.slots.len()
            invariant
                i <= self.table.slots.len(),
                target_ids(out@) == client_targets_of_any(
                    self.table.slots@.take(i as int),
                    users@,
                ),
            decreases self.table.slots.len() - i,
        {
            let slot = &self.table.slots[i];
            let is_target = match &slot.conn.user_ref {
                Some(u) => is_one_of(u, users),
                None => false,
            };
            proof {
                let slots = self.table.slots@;
                assert(slots.take(i as int + 1).drop_last() =~= slots.take(i as int));
            }
            if is_target {
                out.push(Target { conn_id: slot.conn_id, sender: slot.conn.sender.clone() });
            }
            i = i + 1;
        }
        assert(self.table.slots@.take(self.table.slots@.len() as int) =~= self.table.slots@);
        out
    }

    /// Every connection, with a handle on each channel.
    pub fn all_targets(&self) -> (r: Vec<Target<ClientWsEnvelope>>)
        requires
            self.wf(),
        ensures
            target_ids(r@) == all_ids(self.table.slots@),
    {
        let mut out: Vec<Target<ClientWsEnvelope>> = Vec::new();
        let mut i: usize = 0;
        while i < self.table.slots.len()
            invariant
                i <= self.table.slots.len(),
                out@.len() == i,
                forall|k: int| 0 <= k < i ==> out@[k].conn_id == self.table.slots@[k].conn_id,
            decreases self.table.slots.len() - i,
        {
            let slot = &self.table.slots[i];
            out.push(Target { conn_id: slot.conn_id, sender: slot.conn.sender.clone() });
            i = i + 1;
        }
        out
    }

    /// Takes out the connections that a round of sends found stale.
    pub fn prune(&mut self, report: &SendReport)
        requires
            old(self).wf(),
        ensures
            final(self).wf(),
            final(self)@ == old(self)@.remove_keys(report.stale@.to_set()),
    {
        if report.stale.len() > 0 {
            self.table.remove_all(&report.stale);
        }
    }

    /// Sends to every connection of `user_ref`; the count of channels that
    /// took the envelope comes back, and the connections that refused are
    /// taken out.
    pub fn send_to_user(&mut self, user_ref: &UserRef, envelope: ClientWsEnvelope) -> (r: usize)
        requires
            old(self).wf(),
        ensures
            final(self).wf(),
            is_send_round(old(self)@, final(self)@, old(self).connections_of(user_ref@), r),
    {
        let targets = self.targets_for_user(user_ref);
        let report = deliver(&targets, &envelope);
        self.prune(&report);
        report.sent
    }

    /// Sends to every connection of any of `users`, once each.
    pub fn send_to_users(&mut self, users: &Vec<UserRef>, envelope: ClientWsEnvelope) -> (r: usize)
        requires
            old(self).wf(),
        ensures
            final(self).wf(),
            is_send_round(
                old(self)@,
                final(self)@,
                client_targets_of_any(old(self).table.slots@, users@),
                r,
            ),
    {
        let targets = self.targets_for_users(users);
        let report = deliver(&targets, &envelope);
        self.prune(&report);
        report.sent
    }

    /// Sends to every connection.
    pub fn broadcast(&mut self, envelope: ClientWsEnvelope) -> (r: usize)
        requires
            old(self).wf(),
        ensures
            final(self).wf(),
            is_send_round(old(self)@, final(self)@, all_ids(old(self).table.slots@), r),
    {
        let targets = self.all_targets();
        let report = deliver(&targets, &envelope);
        self.prune(&report);
        report.sent
    }
}

/// Whether `conn` is authenticated as the host `host`: the two name the
/// same host, which is so where their padded forms are equal.
pub open spec fn is_conn_of_host(conn: FederationConn, host: Seq<char>) -> bool {
    conn.host matches Some(h) && pad_host_spec(h@) == pad_host_spec(host)
}

/// Whether no two connections of `m` are authenticated as the same host,
/// under whatever names.
pub open spec fn hosts_unique(m: Map<Uuid, FederationConn>) -> bool {
    forall|a: Uuid, b: Uuid|
        m.dom().contains(a) && m.dom().contains(b) && a != b && (#[trigger] m[a]).host.is_some()
            && (#[trigger] m[b]).host.is_some() ==> pad_host_spec(m[a].host.unwrap()@)
            != pad_host_spec(m[b].host.unwrap()@)
}

/// Whether `id` is a connection of `m` that is authenticated as `host`.
pub open spec fn holds_host(m: Map<Uuid, FederationConn>, host: Seq<char>, id: Uuid) -> bool {
    m.dom().contains(id) && is_conn_of_host(m[id], host)
}

/// The connection of `host` in `m`: the index by host.
pub open spec fn conn_of_host(m: Map<Uuid, FederationConn>, host: Seq<char>) -> Option<Uuid> {
    if exists|id: Uuid| holds_host(m, host, id) {
        Some(choose|id: Uuid| holds_host(m, host, id))
    } else {
        None
    }
}

/// The targets of a send to `host`: its connection, if it has one.
pub open spec fn host_targets(m: Map<Uuid, FederationConn>, host: Seq<char>) -> Seq<Uuid> {
    match conn_of_host(m, host) {
        Some(id) => seq![id],
        None => Seq::empty(),
    }
}

/// Whether `conn` is authenticated as one of `hosts`.
pub open spec fn is_conn_of_any_host(conn: FederationConn, hosts: Seq<String>) -> bool {
    exists|k: int| 0 <= k < hosts.len() && is_conn_of_host(conn, (#[trigger] hosts[k])@)
}

/// The connections among `slots` that are authenticated as one of `hosts`,
/// each once, in order.
pub open spec fn federation_targets_of_any(
    slots: Seq<Slot<FederationConn>>,
    hosts: Seq<String>,
) -> Seq<Uuid>
    decreases slots.len(),
{
    if slots.len() == 0 {
        Seq::empty()
    } else {
        let rest = federation_targets_of_any(slots.drop_last(), hosts);
        if is_conn_of_any_host(slots.last().conn, hosts) {
            rest.push(slots.last().conn_id)
        } else {
            rest
        }
    }
}

/// The pool after `conn_id` was authenticated as `host`: another connection
/// that held the host is gone, and `conn_id` holds it.
pub open spec fn after_authenticate(
    m: Map<Uuid, FederationConn>,
    conn_id: Uuid,
    host: String,
) -> Map<Uuid, FederationConn> {
    let kept = match conn_of_host(m, host@) {
        Some(holder) => if holder != conn_id {
            m.remove(holder)
        } else {
            m
        },
        None => m,
    };
    kept.insert(
        conn_id,
        FederationConn {
            sender: m[conn_id].sender,
            host: Some(host),
            connected_at: m[conn_id].connected_at,
        },
    )
}

/// Whether `after` is `before` with the connection `conn_id` put in, fed by
/// `sender` and not yet authenticated; nothing else differs.
pub open spec fn is_registered(
    before: Map<Uuid, FederationConn>,
    after: Map<Uuid, FederationConn>,
    conn_id: Uuid,
    sender: UnboundedSender<FederationWsEnvelope>,
) -> bool {
    &&& after.dom() == before.dom().insert(conn_id)
    &&& after[conn_id].sender == sender
    &&& after[conn_id].host.is_none()
    &&& forall|id: Uuid|
        id != conn_id && before.dom().contains(id) ==> #[trigger] after[id] == before[id]
}

/// Whether `host` is one of `hosts`, under whatever name.
pub fn is_one_of_hosts(host: &str, hosts: &Vec<String>) -> (r: bool)
    ensures
        r == exists|k: int|
            0 <= k < hosts@.len() && pad_host_spec((#[trigger] hosts@[k])@) == pad_host_spec(host@),
{
    let mut k: usize = 0;
    while k < hosts.len()
        invariant
            k <= hosts.len(),
            forall|j: int|
                0 <= j < k ==> pad_host_spec((#[trigger] hosts@[j])@) != pad_host_spec(host@),
        decreases hosts.len() - k,
    {
        if same_host(hosts[k].as_str(), host) {
            return true;
        }
        k = k + 1;
    }
    false
}

/// The pool of connections to peer hosts. Each host has at most one.
pub struct FederationWsPool {
    pub table: ConnTable<FederationConn>,
}

impl View for FederationWsPool {
    type V = Map<Uuid, FederationConn>;

    open spec fn view(&self) -> Map<Uuid, FederationConn> {
        self.table@
    }
}

impl FederationWsPool {
    /// Whether the pool is well formed: no identifier twice, no host twice.
    pub open spec fn wf(&self) -> bool {
        self.table.wf() && hosts_unique(self@)
    }

    /// The pool without connections.
    pub fn new() -> (r: Self)
        ensures
            r.wf(),
            r@ == Map::<Uuid, FederationConn>::empty(),
    {
        FederationWsPool { table: ConnTable::new() }
    }

    /// Puts a connection in, not yet authenticated. A connection that was
    /// there under `conn_id` is replaced.
    pub fn register_connection(
        &mut self,
        conn_id: Uuid,
        sender: UnboundedSender<FederationWsEnvelope>,
    )
        requires
            old(self).wf(),
        ensures
            final(self).wf(),
            exists|at: Timestamp|
                final(self)@ == old(self)@.insert(
                    conn_id,
                    (FederationConn { sender: sender, host: None, connected_at: at }),
                ),
    {
        let connected_at = now_utc();
        let _ = self.table.insert(conn_id, FederationConn { sender, host: None, connected_at });
    }

    /// The connection that holds `host`, if one does.
    pub fn find_host(&self, host: &str) -> (r: Option<Uuid>)
        requires
            self.wf(),
        ensures
            r == conn_of_host(self@, host@),
    {
        let mut i: usize = 0;
        while i < self.table.slots.len()
            invariant
                self.wf(),
                i <= self.table.slots.len(),
                forall|k: int|
                    0 <= k < i ==> !is_conn_of_host((#[trigger] self.table.slots@[k]).conn, host@),
            decreases self.table.slots.len() - i,
        {
            let slot = &self.table.slots[i];
            let holds = match &slot.conn.host {
                Some(h) => same_host(h.as_str(), host),
                None => false,
            };
            if holds {
                proof {
                    lemma_conn_map_at(self.table.slots@, i as int);
                    assert(holds_host(self@, host@, slot.conn_id));
                }
                return Some(slot.conn_id);
            }
            i = i + 1;
        }
        proof {
            assert forall|id: Uuid| !holds_host(self@, host@, id) by {
            }
        }
        None
    }

    /// Binds a connection to a host. Another connection that held the host
    /// is taken out, so that the host has this one connection. `false`, and
    /// nothing changes, where the pool has no such connection.
    pub fn authenticate_connection(&mut self, conn_id: Uuid, host: String) -> (r: bool)
        requires
            old(self).wf(),
        ensures
            final(self).wf(),
            r == old(self)@.dom().contains(conn_id),
            r ==> final(self)@ == after_authenticate(old(self)@, conn_id, host),
            r ==> conn_of_host(final(self)@, host@) == Some(conn_id),
            !r ==> final(self)@ == old(self)@,
    {
        if self.table.position(conn_id).is_none() {
            return false;
        }
        match self.find_host(host.as_str()) {
            Some(holder) => {
                if holder != conn_id {
                    let _ = self.table.remove(holder);
                }
            },
            None => {},
        }
        match self.table.remove(conn_id) {
            Some(conn) => {
                let _ = self.table.insert(
                    conn_id,
                    FederationConn {
                        sender: conn.sender,
                        host: Some(host),
                        connected_at: conn.connected_at,
                    },
                );
                proof {
                    assert forall|a: Uuid, b: Uuid|
                        self@.dom().contains(a) && self@.dom().contains(b) && a != b && (
                        #[trigger] self@[a]).host.is_some() && (
                        #[trigger] self@[b]).host.is_some() implies pad_host_spec(
                        self@[a].host.unwrap()@,
                    ) != pad_host_spec(self@[b].host.unwrap()@) by {
                        let other = if a == conn_id {
                            b
                        } else {
                            a
                        };
                        if a == conn_id || b == conn_id {
                            if pad_host_spec(old(self)@[other].host.unwrap()@) == pad_host_spec(
                                host@,
                            ) {
                                assert(holds_host(old(self)@, host@, other));
                            }
                        }
                    }
                    assert(holds_host(self@, host@, conn_id));
                }
                true
            },
            None => false,
        }
    }

    /// Takes a connection out. `false` where the pool has no such connection.
    pub fn deregister_connection(&mut self, conn_id: Uuid) -> (r: bool)
        requires
            old(self).wf(),
        ensures
            final(self).wf(),
            r == old(self)@.dom().contains(conn_id),
            final(self)@ == old(self)@.remove(conn_id),
    {
        self.table.remove(conn_id).is_some()
    }

    /// Sends to one connection. `true` where its channel took the envelope;
    /// where it refused, the connection is taken out.
    pub fn send_to_connection(&mut self, conn_id: Uuid, envelope: FederationWsEnvelope) -> (r:
        bool)
        requires
            old(self).wf(),
        ensures
            final(self).wf(),
            r ==> old(self)@.dom().contains(conn_id) && final(self)@ == old(self)@,
            !r ==> final(self)@ == old(self)@.remove(conn_id),
    {
        let taken = match self.table.get(conn_id) {
            Some(conn) => channel_send(&conn.sender, envelope),
            None => false,
        };
        if taken {
            return true;
        }
        let _ = self.deregister_connection(conn_id);
        false
    }

    /// The host that a connection is authenticated as, if any.
    pub fn authenticated_host(&self, conn_id: Uuid) -> (r: Option<String>)
        requires
            self.wf(),
        ensures
            r == (if self@.dom().contains(conn_id) {
                self@[conn_id].host
            } else {
                None
            }),
    {
        match self.table.get(conn_id) {
            Some(conn) => match &conn.host {
                Some(h) => Some(h.clone()),
                None => None,
            },
            None => None,
        }
    }

    /// Whether `host` has a connection.
    pub fn has_host(&self, host: &str) -> (r: bool)
        requires
            self.wf(),
        ensures
            r == conn_of_host(self@, host@).is_some(),
    {
        self.find_host(host).is_some()
    }

    /// Sends to the connection of `host`. `false` where the host has none or
    /// its channel refused; a connection that refused is taken out.
    pub fn send_to_host(&mut self, host: &str, envelope: FederationWsEnvelope) -> (r: bool)
        requires
            old(self).wf(),
        ensures
            final(self).wf(),
            match conn_of_host(old(self)@, host@) {
                Some(id) => {
                    &&& r ==> final(self)@ == old(self)@
                    &&& !r ==> final(self)@ == old(self)@.remove(id)
                },
                None => !r && final(self)@ == old(self)@,
            },
    {
        match self.find_host(host) {
            Some(conn_id) => self.send_to_connection(conn_id, envelope),
            None => false,
        }
    }

    /// The connections of any of `hosts`, each once, with a handle on each channel.
    pub fn targets_for_hosts(&self, hosts: &Vec<String>) -> (r: Vec<Target<FederationWsEnvelope>>)
        requires
            self.wf(),
        ensures
            target_ids(r@) == federation_targets_of_any(self.table.slots@, hosts@),
    {
        let mut out: Vec<Target<FederationWsEnvelope>> = Vec::new();
        let mut i: usize = 0;
        while i < self.table.slots.len()
            invariant
                i <= self.table.slots.len(),
                target_ids(out@) == federation_targets_of_any(
                    self.table.slots@.take(i as int),
                    hosts@,
                ),
            decreases self.table.slots.len() - i,
        {
            let slot = &self.table.slots[i];
            let is_target = match &slot.conn.host {
                Some(h) => is_one_of_hosts(h.as_str(), hosts),
                None => false,
            };
            proof {
                let slots = self.table.slots@;
                assert(slots.take(i as int + 1).drop_last() =~= slots.take(i as int));
            }
            if is_target {
                out.push(Target { conn_id: slot.conn_id, sender: slot.conn.sender.clone() });
            }
            i = i + 1;
        }
        assert(self.table.slots@.take(self.table.slots@.len() as int) =~= self.table.slots@);
        out
    }

    /// Every connection, with a handle on each channel.
    pub fn all_targets(&self) -> (r: Vec<Target<FederationWsEnvelope>>)
        requires
            self.wf(),
        ensures
            target_ids(r@) == all_ids(self.table.slots@),
    {
        let mut out: Vec<Target<FederationWsEnvelope>> = Vec::new();
        let mut i: usize = 0;
        while i < self.table.slots.len()
            invariant
                i <= self.table.slots.len(),
                out@.len() == i,
                forall|k: int| 0 <= k < i ==> out@[k].conn_id == self.table.slots@[k].conn_id,
            decreases self.table.slots.len() - i,
        {
            let slot = &self.table.slots[i];
            out.push(Target { conn_id: slot.conn_id, sender: slot.conn.sender.clone() });
            i = i + 1;
        }
        out
    }

    /// Takes out the connections that a round of sends found stale.
    pub fn prune(&mut self, report: &SendReport)
        requires
            old(self).wf(),
        ensures
            final(self).wf(),
            final(self)@ == old(self)@.remove_keys(report.stale@.to_set()),
    {
        if report.stale.len() > 0 {
            self.table.remove_all(&report.stale);
        }
    }

    /// Sends once to the connection of each host among `hosts`; the count of
    /// channels that took the envelope comes back, and the connections that
    /// refused are taken out.
    pub fn send_to_hosts(&mut self, hosts: &Vec<String>, envelope: FederationWsEnvelope) -> (r:
        usize)
        requires
            old(self).wf(),
        ensures
            final(self).wf(),
            is_send_round(
                old(self)@,
                final(self)@,
                federation_targets_of_any(old(self).table.slots@, hosts@),
                r,
            ),
    {
        let targets = self.targets_for_hosts(hosts);
        let report = deliver(&targets, &envelope);
        self.prune(&report);
        report.sent
    }

    /// Sends to every connection.
    pub fn broadcast(&mut self, envelope: FederationWsEnvelope) -> (r: usize)
        requires
            old(self).wf(),
        ensures
            final(self).wf(),
            is_send_round(old(self)@, final(self)@, all_ids(old(self).table.slots@), r),
    {
        let targets = self.all_targets();
        let report = deliver(&targets, &envelope);
        self.prune(&report);
        report.sent
    }
}

/// A host has at most one connection in a well-formed pool.
pub proof fn lemma_one_connection_per_host(pool: FederationWsPool, host: Seq<char>, a: Uuid, b: Uuid)
    requires
        pool.wf(),
        holds_host(pool@, host, a),
        holds_host(pool@, host, b),
    ensures
        a == b,
        conn_of_host(pool@, host) == Some(a),
{
}

/// Two names of one host, which are names whose padded forms are equal,
/// find the same connection: what is sent to the host under one name
/// reaches the connection that was bound under the other.
pub proof fn lemma_names_of_a_host_share_its_connection(
    pool: FederationWsPool,
    a: Seq<char>,
    b: Seq<char>,
)
    requires
        pool.wf(),
        pad_host_spec(a) == pad_host_spec(b),
    ensures
        conn_of_host(pool@, a) == conn_of_host(pool@, b),
{
    if conn_of_host(pool@, a).is_some() {
        let id = conn_of_host(pool@, a).unwrap();
        assert(holds_host(pool@, b, id));
        lemma_one_connection_per_host(pool, b, id, conn_of_host(pool@, b).unwrap());
    } else if conn_of_host(pool@, b).is_some() {
        let id = conn_of_host(pool@, b).unwrap();
        assert(holds_host(pool@, a, id));
    }
}

/// A connection that was authenticated as a user is a target of a send to
/// that user, and no target of any send once it is taken out.
pub proof fn lemma_authenticated_is_reachable(
    before: ClientWsPool,
    bound: ClientWsPool,
    gone: ClientWsPool,
    conn_id: Uuid,
    user_ref: UserRef,
)
    requires
        before.wf(),
        bound.wf(),
        gone.wf(),
        before@.dom().contains(conn_id),
        bound@ == before@.insert(
            conn_id,
            (ClientConn {
                sender: before@[conn_id].sender,
                user_ref: Some(user_ref),
                connected_at: before@[conn_id].connected_at,
            }),
        ),
        gone@ == bound@.remove(conn_id),
    ensures
        bound.connections_of(user_ref@).contains(conn_id),
        forall|user: (Seq<char>, Seq<char>)| !gone.connections_of(user).contains(conn_id),
{
    let slots = bound.table.slots@;
    let i = slot_index(slots, conn_id);
    assert(bound@.dom().contains(conn_id));
    assert(bound@[conn_id] == slots[i].conn);
    lemma_client_targets_contains(slots, user_ref@, conn_id);
    assert forall|user: (Seq<char>, Seq<char>)| !gone.connections_of(user).contains(conn_id) by {
        lemma_client_targets_contains(gone.table.slots@, user, conn_id);
        if gone.connections_of(user).contains(conn_id) {
            assert(gone@.dom().contains(conn_id));
        }
    }
}

/// A send to users has each connection of one of them as a target exactly
/// once, and no other connection.
pub proof fn lemma_client_targets_each_once(slots: Seq<Slot<ClientConn>>, users: Seq<UserRef>)
    requires
        crate::ws::table::ids_distinct(slots),
    ensures
        client_targets_of_any(slots, users).no_duplicates(),
        forall|id: Uuid|
            client_targets_of_any(slots, users).contains(id) <==> exists|i: int|
                0 <= i < slots.len() && slots[i].conn_id == id && is_conn_of_any(
                    slots[i].conn,
                    users,
                ),
    decreases slots.len(),
{
    if slots.len() > 0 {
        let front = slots.drop_last();
        let rest = client_targets_of_any(front, users);
        let all = client_targets_of_any(slots, users);
        let n = slots.len() - 1;
        assert(forall|i: int| 0 <= i < n ==> front[i] == slots[i]);
        assert(crate::ws::table::ids_distinct(front)) by {
            assert forall|i: int, j: int| 0 <= i < j < front.len() implies (#[trigger] front[i]).conn_id
                != (#[trigger] front[j]).conn_id by {
            }
        }
        lemma_client_targets_each_once(front, users);
        assert forall|id: Uuid|
            all.contains(id) <==> exists|i: int|
                0 <= i < slots.len() && slots[i].conn_id == id && is_conn_of_any(
                    slots[i].conn,
                    users,
                ) by {
            if all.contains(id) {
                let k = choose|k: int| 0 <= k < all.len() && all[k] == id;
                if k < rest.len() {
                    assert(rest.contains(id));
                }
            }
            if exists|i: int|
                0 <= i < slots.len() && slots[i].conn_id == id && is_conn_of_any(
                    slots[i].conn,
                    users,
                ) {
                let i = choose|i: int|
                    0 <= i < slots.len() && slots[i].conn_id == id && is_conn_of_any(
                        slots[i].conn,
                        users,
                    );
                if i < n {
                    assert(rest.contains(id));
                    let k = choose|k: int| 0 <= k < rest.len() && rest[k] == id;
                    assert(all[k] == id);
                } else {
                    assert(all[all.len() - 1] == id);
                }
            }
        }
        assert forall|a: int, b: int| 0 <= a < all.len() && 0 <= b < all.len() && a != b implies all[a]
            != all[b] by {
            if a >= rest.len() || b >= rest.len() {
                let inner = if a < rest.len() {
                    a
                } else {
                    b
                };
                assert(rest.contains(rest[inner]));
            }
        }
    }
}

/// A send to hosts has the connection of each of them as a target exactly
/// once, and no other connection.
pub proof fn lemma_federation_targets_each_once(
    slots: Seq<Slot<FederationConn>>,
    hosts: Seq<String>,
)
    requires
        crate::ws::table::ids_distinct(slots),
    ensures
        federation_targets_of_any(slots, hosts).no_duplicates(),
        forall|id: Uuid|
            federation_targets_of_any(slots, hosts).contains(id) <==> exists|i: int|
                0 <= i < slots.len() && slots[i].conn_id == id && is_conn_of_any_host(
                    slots[i].conn,
                    hosts,
                ),
    decreases slots.len(),
{
    if slots.len() > 0 {
        let front = slots.drop_last();
        let rest = federation_targets_of_any(front, hosts);
        let all = federation_targets_of_any(slots, hosts);
        let n = slots.len() - 1;
        assert(forall|i: int| 0 <= i < n ==> front[i] == slots[i]);
        assert(crate::ws::table::ids_distinct(front)) by {
            assert forall|i: int, j: int| 0 <= i < j < front.len() implies (#[trigger] front[i]).conn_id
                != (#[trigger] front[j]).conn_id by {
            }
        }
        lemma_federation_targets_each_once(front, hosts);
        assert forall|id: Uuid|
            all.contains(id) <==> exists|i: int|
                0 <= i < slots.len() && slots[i].conn_id == id && is_conn_of_any_host(
                    slots[i].conn,
                    hosts,
                ) by {
            if all.contains(id) {
                let k = choose|k: int| 0 <= k < all.len() && all[k] == id;
                if k < rest.len() {
                    assert(rest.contains(id));
                }
            }
            if exists|i: int|
                0 <= i < slots.len() && slots[i].conn_id == id && is_conn_of_any_host(
                    slots[i].conn,
                    hosts,
                ) {
                let i = choose|i: int|
                    0 <= i < slots.len() && slots[i].conn_id == id && is_conn_of_any_host(
                        slots[i].conn,
                        hosts,
                    );
                if i < n {
                    assert(rest.contains(id));
                    let k = choose|k: int| 0 <= k < rest.len() && rest[k] == id;
                    assert(all[k] == id);
                } else {
                    assert(all[all.len() - 1] == id);
                }
            }
        }
        assert forall|a: int, b: int| 0 <= a < all.len() && 0 <= b < all.len() && a != b implies all[a]
            != all[b] by {
            if a >= rest.len() || b >= rest.len() {
                let inner = if a < rest.len() {
                    a
                } else {
                    b
                };
                assert(rest.contains(rest[inner]));
            }
        }
    }
}

} // verus!
