//! The manager of federation connections: typed sends over the federation
//! pool, and the correlation of each request with its reply.
//!
//! A request is made in steps, because two of them wait: opening a
//! connection and awaiting the reply. The manager decides before and after
//! each wait; the caller does the waiting.
//!
//! 1. `plan_request` pads the host and says whether it must be dialled.
//! 2. Where it must, the caller dials and `after_dial` judges the outcome.
//! 3. `send_request_to_host` installs the waiter and sends the request.
//! 4. The caller awaits the waiter up to the timeout, and `finish_request`
//!    turns what happened into the result.
//!
//! A reply that arrives on any connection goes to `resolve_response_envelope`.

use vstd::prelude::*;
use vstd::string::*;
use std::collections::HashMap;
use tokio::sync::mpsc::UnboundedSender;
use tokio::sync::oneshot::Sender;
use crate::config::{explicit_host_spec, ServerConfig};
use crate::outside::{fresh_uuid, oneshot_send, MAX_UNIX_SECONDS};
use crate::types::Uuid;
use crate::types::auth::{is_federation_claims, FederationClaims, DIAL_TOKEN_LIFETIME_SECS};
use crate::types::user::UserRef;
use crate::types::ws::{
    FederationWsEnvelope, FederationWsReply, FederationWsRequest, FederationWsUpdate, WsError,
};
use crate::util::{
    api_url_spec, federation_ws_url_spec, get_api_url, get_federation_ws_url, pad_host,
    pad_host_spec,
};
use crate::ws::error::{FederationRequestError, FederationRequestResult};
use crate::ws::pools::{
    after_authenticate, all_ids, conn_of_host, federation_targets_of_any, is_registered,
    is_send_round, FederationConn, FederationWsPool,
};

verus! {

/// The waiter of one request: it takes the reply, or the error that the
/// peer answered with.
pub type PendingFederationReplySender = Sender<Result<FederationWsReply, WsError>>;

/// The manager of federation connections.
pub struct FederationWsManager {
    pub pool: FederationWsPool,
    /// The waiters of the requests in flight, by request identifier.
    pub pending: HashMap<Uuid, PendingFederationReplySender>,
}

/// What a request is to do first.
#[derive(Debug, PartialEq, Eq)]
pub struct RequestPlan {
    /// The host in padded form, as the pool knows it.
    pub host: String,
    /// Whether the host has no connection and must be dialled.
    pub must_dial: bool,
}

/// What is needed to dial a host.
#[derive(Debug, PartialEq, Eq)]
pub struct DialRequest {
    /// The claims of the token that authenticates this server to the peer.
    pub claims: FederationClaims,
    /// The URL of the peer's federation endpoint.
    pub url: String,
}

/// How the wait for a reply ended.
#[derive(Debug, PartialEq, Eq)]
pub enum WaitOutcome {
    /// The waiter was completed with this.
    Completed(Result<FederationWsReply, WsError>),
    /// The waiter was dropped.
    Closed,
    /// The timeout passed.
    TimedOut,
}

/// The envelope that carries `update`, under a fresh event identifier.
pub fn federation_update_envelope(update: FederationWsUpdate) -> (r: FederationWsEnvelope)
    ensures
        r matches FederationWsEnvelope::Update { event_id, update: u } && u == update,
{
    FederationWsEnvelope::Update { event_id: fresh_uuid(), update }
}

/// The envelope that carries `reply` to the request `request_id`.
pub fn federation_reply_envelope(request_id: Uuid, reply: FederationWsReply) -> (r:
    FederationWsEnvelope)
    ensures
        r matches FederationWsEnvelope::Reply { request_id: id, event_id, reply: p } && id
            == request_id && p == reply,
{
    FederationWsEnvelope::Reply { request_id, event_id: fresh_uuid(), reply }
}

/// The envelope that carries `error` for the request `request_id`.
pub fn federation_error_envelope(request_id: Option<Uuid>, error: WsError) -> (r:
    FederationWsEnvelope)
    ensures
        r matches FederationWsEnvelope::Error { request_id: id, event_id, error: e } && id
            == request_id && e == error,
{
    FederationWsEnvelope::Error { request_id, event_id: fresh_uuid(), error }
}

/// The envelope that carries `request` under the given identifiers, made
/// for the user `delegated_user_ref` where there is one.
pub fn federation_request_envelope(
    request_id: Uuid,
    event_id: Uuid,
    delegated_user_ref: Option<UserRef>,
    request: FederationWsRequest,
) -> (r: FederationWsEnvelope)
    ensures
        r == (FederationWsEnvelope::Request { request_id, event_id, delegated_user_ref, request }),
{
    FederationWsEnvelope::Request { request_id, event_id, delegated_user_ref, request }
}

/// What a response envelope completes: the request it answers and the
/// outcome for its waiter. Requests, updates and errors that name no
/// request complete nothing.
pub open spec fn response_of(envelope: FederationWsEnvelope) -> Option<
    (Uuid, Result<FederationWsReply, WsError>),
> {
    match envelope {
        FederationWsEnvelope::Reply { request_id, event_id, reply } => Some(
            (request_id, Ok(reply)),
        ),
        FederationWsEnvelope::Error { request_id: Some(request_id), event_id, error } => Some(
            (request_id, Err(error)),
        ),
        _ => None,
    }
}

/// What the envelope `envelope` completes, if it is a response.
pub fn response(envelope: FederationWsEnvelope) -> (r: Option<
    (Uuid, Result<FederationWsReply, WsError>),
>)
    ensures
        r == response_of(envelope),
{
    match envelope {
        FederationWsEnvelope::Reply { request_id, reply, .. } => Some((request_id, Ok(reply))),
        FederationWsEnvelope::Error { request_id: Some(request_id), error, .. } => Some(
            (request_id, Err(error)),
        ),
        _ => None,
    }
}

/// How often an identifier is drawn for a request before giving up, where
/// each one drawn is that of a request in flight.
pub const REQUEST_ID_DRAWS: usize = 4;

/// The result of a request, from how the wait for its reply ended.
pub open spec fn request_result(
    host: String,
    request_id: Uuid,
    outcome: WaitOutcome,
    r: FederationRequestResult<FederationWsReply>,
) -> bool {
    match outcome {
        WaitOutcome::Completed(Ok(reply)) => r == Ok::<
            FederationWsReply,
            FederationRequestError,
        >(reply),
        WaitOutcome::Completed(Err(error)) => r matches Err(
            FederationRequestError::Remote { code, message, error: e },
        ) && code == error.code && message == error.message && e == error,
        WaitOutcome::Closed => r == Err::<FederationWsReply, FederationRequestError>(
            FederationRequestError::ChannelClosed { request_id },
        ),
        WaitOutcome::TimedOut => r == Err::<FederationWsReply, FederationRequestError>(
            FederationRequestError::Timeout { host, request_id },
        ),
    }
}

/// The text of the `Authorization` header that carries `token`.
pub fn bearer_header(token: &str) -> (r: String)
    ensures
        r@ == "Bearer "@ + token@,
{
    String::from_str("Bearer ").concat(token)
}

/// What is needed to dial `host` from the server that `config` describes:
/// claims that name this server as issuer and the peer as audience, for
/// five minutes and for no user; and the peer's federation endpoint.
pub fn dial_request(config: &ServerConfig, host: &str) -> (r: DialRequest)
    ensures
        r.url@ == federation_ws_url_spec(host@),
        exists|now: i64|
            -MAX_UNIX_SECONDS < now < MAX_UNIX_SECONDS && is_federation_claims(
                r.claims,
                api_url_spec(explicit_host_spec(config.local_host_raw@, config.port)),
                api_url_spec(host@),
                None,
                DIAL_TOKEN_LIFETIME_SECS,
                now,
            ),
{
    let claims = FederationClaims::new_server_only(
        config.api_url(),
        get_api_url(host),
        DIAL_TOKEN_LIFETIME_SECS,
    );
    DialRequest { claims, url: get_federation_ws_url(host) }
}

impl FederationWsManager {
    /// Whether the manager is well formed.
    pub open spec fn wf(&self) -> bool {
        self.pool.wf()
    }

    /// The requests in flight.
    pub open spec fn pending_ids(&self) -> Set<Uuid> {
        self.pending@.dom()
    }

    /// The manager without connections and without requests in flight.
    pub fn new() -> (r: Self)
        ensures
            r.wf(),
            r.pool@ == Map::<Uuid, FederationConn>::empty(),
            r.pending_ids() == Set::<Uuid>::empty(),
    {
        let r = FederationWsManager { pool: FederationWsPool::new(), pending: HashMap::new() };
        r
    }

    /// Puts a connection in under a fresh identifier, which it hands back.
    pub fn register_connection(&mut self, sender: UnboundedSender<FederationWsEnvelope>) -> (conn_id:
        Uuid)
        requires
            old(self).wf(),
        ensures
            final(self).wf(),
            final(self).pending == old(self).pending,
            final(self).pool@.dom() == old(self).pool@.dom().insert(conn_id),
            final(self).pool@[conn_id].sender == sender,
            final(self).pool@[conn_id].host.is_none(),
            forall|id: Uuid|
                id != conn_id && old(self).pool@.dom().contains(id) ==> final(self).pool@[id]
                    == old(self).pool@[id],
    {
        let conn_id = fresh_uuid();
        self.pool.register_connection(conn_id, sender);
        conn_id
    }

    /// Binds a connection to a host; a connection that held the host is taken out.
    pub fn authenticate_connection(&mut self, conn_id: Uuid, host: String) -> (r: bool)
        requires
            old(self).wf(),
        ensures
            final(self).wf(),
            final(self).pending == old(self).pending,
            r == old(self).pool@.dom().contains(conn_id),
            r ==> final(self).pool@ == after_authenticate(old(self).pool@, conn_id, host),
            r ==> conn_of_host(final(self).pool@, host@) == Some(conn_id),
            !r ==> final(self).pool@ == old(self).pool@,
    {
        self.pool.authenticate_connection(conn_id, host)
    }

    /// Takes a connection out.
    pub fn deregister_connection(&mut self, conn_id: Uuid) -> (r: bool)
        requires
            old(self).wf(),
        ensures
            final(self).wf(),
            final(self).pending == old(self).pending,
            r == old(self).pool@.dom().contains(conn_id),
            final(self).pool@ == old(self).pool@.remove(conn_id),
    {
        self.pool.deregister_connection(conn_id)
    }

    /// The host that a connection is authenticated as, if any.
    pub fn authenticated_host(&self, conn_id: Uuid) -> (r: Option<String>)
        requires
            self.wf(),
        ensures
            r == (if self.pool@.dom().contains(conn_id) {
                self.pool@[conn_id].host
            } else {
                None
            }),
    {
        self.pool.authenticated_host(conn_id)
    }

    /// The first step of a request to `host`: the host is padded, and must be
    /// dialled exactly where the pool has no connection for the padded host.
    pub fn plan_request(&self, host: &str) -> (r: RequestPlan)
        requires
            self.wf(),
        ensures
            r.host@ == pad_host_spec(host@),
            r.must_dial == conn_of_host(self.pool@, pad_host_spec(host@)).is_none(),
    {
        let host = pad_host(host);
        let must_dial = !self.pool.has_host(host.as_str());
        RequestPlan { host, must_dial }
    }

    /// Whether `host` has a connection; where it has none it is to be dialled.
    pub fn ensure_connection(&self, host: &str) -> (r: bool)
        requires
            self.wf(),
        ensures
            r == conn_of_host(self.pool@, host@).is_some(),
    {
        self.pool.has_host(host)
    }

    /// Judges a dial of `host`: the request goes on where the dial succeeded
    /// and the host now has a connection; else the host is unavailable.
    pub fn after_dial(&self, host: &str, dialed: bool) -> (r: FederationRequestResult<()>)
        requires
            self.wf(),
        ensures
            r.is_ok() == (dialed && conn_of_host(self.pool@, host@).is_some()),
            r matches Err(e) ==> e matches FederationRequestError::HostUnavailable { host: h }
                && h@ == host@,
    {
        if dialed && self.pool.has_host(host) {
            Ok(())
        } else {
            Err(FederationRequestError::HostUnavailable { host: String::from_str(host) })
        }
    }

    /// Takes a connection that was dialled to `host` into the pool, bound to
    /// the host, and hands back its identifier. The pool is then what
    /// putting the connection in and authenticating it as `host` make of it:
    /// a connection that held the host is gone, the others stay.
    pub fn adopt_dialed_connection(
        &mut self,
        host: String,
        sender: UnboundedSender<FederationWsEnvelope>,
    ) -> (conn_id: Uuid)
        requires
            old(self).wf(),
        ensures
            final(self).wf(),
            final(self).pending == old(self).pending,
            conn_of_host(final(self).pool@, host@) == Some(conn_id),
            final(self).pool@[conn_id].sender == sender,
            exists|registered: Map<Uuid, FederationConn>|
                #[trigger] is_registered(old(self).pool@, registered, conn_id, sender)
                    && final(self).pool@ == after_authenticate(registered, conn_id, host),
    {
        let conn_id = self.register_connection(sender);
        let ghost registered = self.pool@;
        let _ = self.authenticate_connection(conn_id, host);
        assert(is_registered(old(self).pool@, registered, conn_id, sender));
        conn_id
    }

    /// Installs `waiter` under a fresh request identifier and sends the
    /// request to the connection of `host`. The identifier is none of a
    /// request in flight: one that is drawn again, a few times; where every
    /// draw is taken, the waiter is dropped and nothing is sent. Where the
    /// channel refuses the request, the waiter is taken out again, the
    /// connection leaves the pool and the host is unavailable.
    pub fn send_request_to_host(
        &mut self,
        host: &str,
        delegated_user_ref: Option<UserRef>,
        request: FederationWsRequest,
        waiter: PendingFederationReplySender,
    ) -> (r: FederationRequestResult<Uuid>)
        requires
            old(self).wf(),
        ensures
            final(self).wf(),
            match r {
                Ok(request_id) => {
                    &&& conn_of_host(old(self).pool@, host@).is_some()
                    &&& final(self).pool@ == old(self).pool@
                    &&& !old(self).pending_ids().contains(request_id)
                    &&& final(self).pending@ == old(self).pending@.insert(request_id, waiter)
                },
                Err(FederationRequestError::HostUnavailable { host: h }) => {
                    &&& h@ == host@
                    &&& final(self).pending@ == old(self).pending@
                    &&& match conn_of_host(old(self).pool@, host@) {
                        Some(id) => final(self).pool@ == old(self).pool@.remove(id),
                        None => final(self).pool@ == old(self).pool@,
                    }
                },
                Err(FederationRequestError::ChannelClosed { request_id }) => {
                    &&& old(self).pending_ids().contains(request_id)
                    &&& final(self).pending@ == old(self).pending@
                    &&& final(self).pool@ == old(self).pool@
                },
                Err(_) => false,
            },
    {
        broadcast use vstd::std_specs::hash::group_hash_axioms;

        let mut request_id = fresh_uuid();
        let mut draws: usize = 1;
        while self.pending.contains_key(&request_id) && draws < REQUEST_ID_DRAWS
            invariant
                *self == *old(self),
                draws <= REQUEST_ID_DRAWS,
            decreases REQUEST_ID_DRAWS - draws,
        {
            request_id = fresh_uuid();
            draws = draws + 1;
        }
        if self.pending.contains_key(&request_id) {
            return Err(FederationRequestError::ChannelClosed { request_id });
        }
        let envelope = federation_request_envelope(
            request_id,
            fresh_uuid(),
            delegated_user_ref,
            request,
        );
        let _ = self.pending.insert(request_id, waiter);
        let sent = self.pool.send_to_host(host, envelope);
        if !sent {
            let _ = self.pending.remove(&request_id);
            assert(self.pending@ =~= old(self).pending@);
            return Err(FederationRequestError::HostUnavailable { host: String::from_str(host) });
        }
        Ok(request_id)
    }

    /// The result of the request `request_id` to `host`, from how the wait
    /// for its reply ended. After a timeout the waiter is taken out, so that
    /// a late reply finds none.
    pub fn finish_request(&mut self, host: String, request_id: Uuid, outcome: WaitOutcome) -> (r:
        FederationRequestResult<FederationWsReply>)
        requires
            old(self).wf(),
        ensures
            final(self).wf(),
            final(self).pool == old(self).pool,
            request_result(host, request_id, outcome, r),
            final(self).pending@ == (if outcome is TimedOut {
                old(self).pending@.remove(request_id)
            } else {
                old(self).pending@
            }),
    {
        broadcast use vstd::std_specs::hash::group_hash_axioms;

        match outcome {
            WaitOutcome::Completed(Ok(reply)) => Ok(reply),
            WaitOutcome::Completed(Err(remote_error)) => Err(
                FederationRequestError::Remote {
                    code: remote_error.code.clone(),
                    message: remote_error.message.clone(),
                    error: remote_error,
                },
            ),
            WaitOutcome::Closed => Err(FederationRequestError::ChannelClosed { request_id }),
            WaitOutcome::TimedOut => {
                let _ = self.pending.remove(&request_id);
                Err(FederationRequestError::Timeout { host, request_id })
            },
        }
    }

    /// Sends an update to the connection of `host`.
    pub fn send_update_to_host(&mut self, host: &str, update: FederationWsUpdate) -> (r: bool)
        requires
            old(self).wf(),
        ensures
            final(self).wf(),
            final(self).pending == old(self).pending,
            match conn_of_host(old(self).pool@, host@) {
                Some(id) => {
                    &&& r ==> final(self).pool@ == old(self).pool@
                    &&& !r ==> final(self).pool@ == old(self).pool@.remove(id)
                },
                None => !r && final(self).pool@ == old(self).pool@,
            },
    {
        self.pool.send_to_host(host, federation_update_envelope(update))
    }

    /// Sends an update once to the connection of each host among `hosts`.
    pub fn send_update_to_hosts(&mut self, hosts: &Vec<String>, update: FederationWsUpdate) -> (r:
        usize)
        requires
            old(self).wf(),
        ensures
            final(self).wf(),
            final(self).pending == old(self).pending,
            is_send_round(
                old(self).pool@,
                final(self).pool@,
                federation_targets_of_any(old(self).pool.table.slots@, hosts@),
                r,
            ),
    {
        self.pool.send_to_hosts(hosts, federation_update_envelope(update))
    }

    /// Sends the reply to a request to the connection that made it.
    pub fn send_reply_to_connection(
        &mut self,
        conn_id: Uuid,
        request_id: Uuid,
        reply: FederationWsReply,
    ) -> (r: bool)
        requires
            old(self).wf(),
        ensures
            final(self).wf(),
            final(self).pending == old(self).pending,
            r ==> old(self).pool@.dom().contains(conn_id) && final(self).pool@ == old(self).pool@,
            !r ==> final(self).pool@ == old(self).pool@.remove(conn_id),
    {
        self.pool.send_to_connection(conn_id, federation_reply_envelope(request_id, reply))
    }

    /// Sends an error to a connection.
    pub fn send_error_to_connection(
        &mut self,
        conn_id: Uuid,
        request_id: Option<Uuid>,
        error: WsError,
    ) -> (r: bool)
        requires
            old(self).wf(),
        ensures
            final(self).wf(),
            final(self).pending == old(self).pending,
            r ==> old(self).pool@.dom().contains(conn_id) && final(self).pool@ == old(self).pool@,
            !r ==> final(self).pool@ == old(self).pool@.remove(conn_id),
    {
        self.pool.send_to_connection(conn_id, federation_error_envelope(request_id, error))
    }

    /// Hands a response to the waiter of the request it answers, and takes
    /// the waiter out. `true` where there was a waiter and it took the
    /// outcome; a response that matches no request in flight is dropped.
    pub fn resolve_response_envelope(&mut self, envelope: FederationWsEnvelope) -> (r: bool)
        requires
            old(self).wf(),
        ensures
            final(self).wf(),
            final(self).pool == old(self).pool,
            match response_of(envelope) {
                Some((request_id, outcome)) => {
                    &&& final(self).pending@ == old(self).pending@.remove(request_id)
                    &&& r ==> old(self).pending_ids().contains(request_id)
                },
                None => !r && final(self).pending@ == old(self).pending@,
            },
    {
        broadcast use vstd::std_specs::hash::group_hash_axioms;

        let (request_id, outcome) = match response(envelope) {
            Some(answered) => answered,
            None => {
                return false;
            },
        };
        let sender = self.pending.remove(&request_id);
        match sender {
            Some(sender) => oneshot_send(sender, outcome),
            None => false,
        }
    }

    /// Sends an update to every connection.
    pub fn broadcast_update(&mut self, update: FederationWsUpdate) -> (r: usize)
        requires
            old(self).wf(),
        ensures
            final(self).wf(),
            final(self).pending == old(self).pending,
            is_send_round(
                old(self).pool@,
                final(self).pool@,
                all_ids(old(self).pool.table.slots@),
                r,
            ),
    {
        self.pool.broadcast(federation_update_envelope(update))
    }
}

/// A response is handed to a waiter at most once: once a response for a
/// request was resolved, or the request timed out, no waiter is left for it,
/// so a second or a late response is dropped.
pub proof fn lemma_response_resolves_once(
    pending: Map<Uuid, PendingFederationReplySender>,
    request_id: Uuid,
)
    ensures
        !pending.remove(request_id).dom().contains(request_id),
        pending.remove(request_id).remove(request_id) == pending.remove(request_id),
{
}

} // verus!
