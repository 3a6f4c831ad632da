//! The manager of client connections: typed sends over the client pool.

use vstd::prelude::*;
use tokio::sync::mpsc::UnboundedSender;
use crate::outside::fresh_uuid;
use crate::types::Uuid;
use crate::types::user::UserRef;
use crate::types::ws::{ClientWsEnvelope, ClientWsReply, ClientWsUpdate, WsError};
use crate::ws::pools::{all_ids, client_targets_of_any, is_send_round, ClientConn, ClientWsPool};

verus! {

/// The manager of client connections.
pub struct ClientWsManager {
    pub pool: ClientWsPool,
}

impl View for ClientWsManager {
    type V = Map<Uuid, ClientConn>;

    open spec fn view(&self) -> Map<Uuid, ClientConn> {
        self.pool@
    }
}

/// The envelope that carries `update`, under a fresh event identifier.
pub fn client_update_envelope(update: ClientWsUpdate) -> (r: ClientWsEnvelope)
    ensures
        r matches ClientWsEnvelope::Update { event_id, update: u } && u == update,
{
    ClientWsEnvelope::Update { event_id: fresh_uuid(), update }
}

/// The envelope that carries `reply` to the request `request_id`.
pub fn client_reply_envelope(request_id: Uuid, reply: ClientWsReply) -> (r: ClientWsEnvelope)
    ensures
        r matches ClientWsEnvelope::Reply { request_id: id, event_id, reply: p } && id == request_id
            && p == reply,
{
    ClientWsEnvelope::Reply { request_id, event_id: fresh_uuid(), reply }
}

/// The envelope that carries `error` for the request `request_id`.
pub fn client_error_envelope(request_id: Option<Uuid>, error: WsError) -> (r: ClientWsEnvelope)
    ensures
        r matches ClientWsEnvelope::Error { request_id: id, event_id, error: e } && id
            == request_id && e == error,
{
    ClientWsEnvelope::Error { request_id, event_id: fresh_uuid(), error }
}

impl ClientWsManager {
    /// Whether the manager is well formed.
    pub open spec fn wf(&self) -> bool {
        self.pool.wf()
    }

    /// The manager without connections.
    pub fn new() -> (r: Self)
        ensures
            r.wf(),
            r@ == Map::<Uuid, ClientConn>::empty(),
    {
        ClientWsManager { pool: ClientWsPool::new() }
    }

    /// Puts a connection in under a fresh identifier, which it hands back.
    pub fn register_connection(&mut self, sender: UnboundedSender<ClientWsEnvelope>) -> (conn_id:
        Uuid)
        requires
            old(self).wf(),
        ensures
            final(self).wf(),
            final(self)@.dom() == old(self)@.dom().insert(conn_id),
            final(self)@[conn_id].sender == sender,
            final(self)@[conn_id].user_ref.is_none(),
            forall|id: Uuid|
                id != conn_id && old(self)@.dom().contains(id) ==> final(self)@[id] == old(
                    self,
                )@[id],
    {
        let conn_id = fresh_uuid();
        self.pool.register_connection(conn_id, sender);
        conn_id
    }

    /// Binds a connection to a user; see the pool.
    pub fn authenticate_connection(&mut self, conn_id: Uuid, user_ref: UserRef) -> (r: bool)
        requires
            old(self).wf(),
        ensures
            final(self).wf(),
            r == old(self)@.dom().contains(conn_id),
            r ==> final(self)@ == old(self)@.insert(
                conn_id,
                (ClientConn {
                    sender: old(self)@[conn_id].sender,
                    user_ref: Some(user_ref),
                    connected_at: old(self)@[conn_id].connected_at,
                }),
            ),
            !r ==> final(self)@ == old(self)@,
    {
        self.pool.authenticate_connection(conn_id, user_ref)
    }

    /// Takes a connection out.
    pub fn deregister_connection(&mut self, conn_id: Uuid) -> (r: bool)
        requires
            old(self).wf(),
        ensures
            final(self).wf(),
            r == old(self)@.dom().contains(conn_id),
            final(self)@ == old(self)@.remove(conn_id),
    {
        self.pool.deregister_connection(conn_id)
    }

    /// The user that a connection is authenticated as, if any.
    pub fn authenticated_user_ref(&self, conn_id: Uuid) -> (r: Option<UserRef>)
        requires
            self.wf(),
        ensures
            r == (if self@.dom().contains(conn_id) {
                self@[conn_id].user_ref
            } else {
                None
            }),
    {
        self.pool.authenticated_user_ref(conn_id)
    }

    /// Sends an update to one connection.
    pub fn send_update_to_connection(&mut self, conn_id: Uuid, update: ClientWsUpdate) -> (r: bool)
        requires
            old(self).wf(),
        ensures
            final(self).wf(),
            r ==> old(self)@.dom().contains(conn_id) && final(self)@ == old(self)@,
            !r ==> final(self)@ == old(self)@.remove(conn_id),
    {
        self.pool.send_to_connection(conn_id, client_update_envelope(update))
    }

    /// Sends an update to every connection of a user.
    pub fn send_update_to_user(&mut self, user_ref: &UserRef, update: ClientWsUpdate) -> (r: usize)
        requires
            old(self).wf(),
        ensures
            final(self).wf(),
            is_send_round(old(self)@, final(self)@, old(self).pool.connections_of(user_ref@), r),
    {
        self.pool.send_to_user(user_ref, client_update_envelope(update))
    }

    /// Sends an update to every connection of any of `users`, once each.
    pub fn send_update_to_users(&mut self, users: &Vec<UserRef>, update: ClientWsUpdate) -> (r:
        usize)
        requires
            old(self).wf(),
        ensures
            final(self).wf(),
            is_send_round(
                old(self)@,
                final(self)@,
                client_targets_of_any(old(self).pool.table.slots@, users@),
                r,
            ),
    {
        self.pool.send_to_users(users, client_update_envelope(update))
    }

    /// Sends the reply to a request to the connection that made it.
    pub fn send_reply_to_connection(
        &mut self,
        conn_id: Uuid,
        request_id: Uuid,
        reply: ClientWsReply,
    ) -> (r: bool)
        requires
            old(self).wf(),
        ensures
            final(self).wf(),
            r ==> old(self)@.dom().contains(conn_id) && final(self)@ == old(self)@,
            !r ==> final(self)@ == old(self)@.remove(conn_id),
    {
        self.pool.send_to_connection(conn_id, client_reply_envelope(request_id, reply))
    }

    /// Sends an error to a connection.
    pub fn send_error_to_connection(
        &mut self,
        conn_id: Uuid,
        request_id: Option<Uuid>,
        error: WsError,
    ) -> (r: bool)
        requires
            old(self).wf(),
        ensures
            final(self).wf(),
            r ==> old(self)@.dom().contains(conn_id) && final(self)@ == old(self)@,
            !r ==> final(self)@ == old(self)@.remove(conn_id),
    {
        self.pool.send_to_connection(conn_id, client_error_envelope(request_id, error))
    }

    /// Sends an update to every connection.
    pub fn broadcast_update(&mut self, update: ClientWsUpdate) -> (r: usize)
        requires
            old(self).wf(),
        ensures
            final(self).wf(),
            is_send_round(old(self)@, final(self)@, all_ids(old(self).pool.table.slots@), r),
    {
        self.pool.broadcast(client_update_envelope(update))
    }
}

} // verus!
