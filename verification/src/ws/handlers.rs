//! The handlers of what arrives on the two transports.
//!
//! A request is answered in steps, because the work in between waits on the
//! store and on other hosts: the handler says what the request leads to, the
//! caller authorizes and carries the operation out, and the handler sends
//! the reply or the error to the connection that asked.

use vstd::prelude::*;
use crate::error::{ws_error_from, ApiResult};
use crate::types::Uuid;
use crate::types::user::UserRef;
use crate::types::ws::{
    ClientWsEnvelope, ClientWsReply, ClientWsRequest, FederationWsEnvelope, FederationWsReply,
    FederationWsRequest, FederationWsUpdate,
};
use crate::ws::client_manager::ClientWsManager;
use crate::ws::federation_manager::{response_of, FederationWsManager};

pub mod client;
pub mod federation;
pub mod flow;
pub mod shared;

verus! {

/// What an envelope from a client leads to.
#[derive(PartialEq, Eq)]
pub enum ClientMessage {
    /// A request to handle, and to answer under this identifier.
    Request { request_id: Uuid, request: ClientWsRequest },
    /// Nothing: clients send requests only.
    Ignored,
}

/// What an envelope from a peer leads to.
#[derive(Debug, PartialEq, Eq)]
pub enum FederationMessage {
    /// A request to handle, and to answer under this identifier.
    Request { request_id: Uuid, delegated_user_ref: Option<UserRef>, request: FederationWsRequest },
    /// A response, which was handed to the waiter of its request, or dropped
    /// where none waited.
    Response { resolved: bool },
    /// An update to pass on to the clients of this host.
    Update(FederationWsUpdate),
}

/// What the envelope `message` of a client leads to: a request is to be
/// handled; replies, errors and updates are ignored.
pub fn handle_client_message(message: ClientWsEnvelope) -> (r: ClientMessage)
    ensures
        r == (match message {
            ClientWsEnvelope::Request { request_id, request } => ClientMessage::Request {
                request_id,
                request,
            },
            _ => ClientMessage::Ignored,
        }),
{
    match message {
        ClientWsEnvelope::Request { request_id, request } => ClientMessage::Request {
            request_id,
            request,
        },
        ClientWsEnvelope::Reply { .. } => ClientMessage::Ignored,
        ClientWsEnvelope::Error { .. } => ClientMessage::Ignored,
        ClientWsEnvelope::Update { .. } => ClientMessage::Ignored,
    }
}

/// Sends the outcome of a request to the client connection that made it: the
/// reply, or the error as an error envelope for this request. `true` where
/// the connection took it.
pub fn answer_client_request(
    manager: &mut ClientWsManager,
    conn_id: Uuid,
    request_id: Uuid,
    result: ApiResult<ClientWsReply>,
) -> (sent: bool)
    requires
        old(manager).wf(),
    ensures
        final(manager).wf(),
        sent ==> old(manager)@.dom().contains(conn_id) && final(manager)@ == old(manager)@,
        !sent ==> final(manager)@ == old(manager)@.remove(conn_id),
{
    match result {
        Ok(reply) => manager.send_reply_to_connection(conn_id, request_id, reply),
        Err(error) => manager.send_error_to_connection(
            conn_id,
            Some(request_id),
            ws_error_from(error),
        ),
    }
}

/// What the envelope `message` of a peer leads to. A response is handed to
/// the waiter of its request here and now.
pub fn handle_federation_message(manager: &mut FederationWsManager, message: FederationWsEnvelope) -> (r:
    FederationMessage)
    requires
        old(manager).wf(),
    ensures
        final(manager).wf(),
        final(manager).pool == old(manager).pool,
        match message {
            FederationWsEnvelope::Request { request_id, event_id, delegated_user_ref, request } => {
                &&& r == (FederationMessage::Request { request_id, delegated_user_ref, request })
                &&& final(manager).pending@ == old(manager).pending@
            },
            FederationWsEnvelope::Update { event_id, update } => {
                &&& r == FederationMessage::Update(update)
                &&& final(manager).pending@ == old(manager).pending@
            },
            _ => {
                &&& r is Response
                &&& match response_of(message) {
                    Some((request_id, outcome)) => {
                        &&& final(manager).pending@ == old(manager).pending@.remove(request_id)
                        &&& r->resolved ==> old(manager).pending_ids().contains(request_id)
                    },
                    None => !r->resolved && final(manager).pending@ == old(manager).pending@,
                }
            },
        },
{
    match message {
        FederationWsEnvelope::Request { request_id, delegated_user_ref, request, .. } => {
            FederationMessage::Request { request_id, delegated_user_ref, request }
        },
        FederationWsEnvelope::Update { update, .. } => FederationMessage::Update(update),
        response_envelope => {
            let resolved = manager.resolve_response_envelope(response_envelope);
            FederationMessage::Response { resolved }
        },
    }
}

/// Sends the outcome of a request to the federation connection that made
/// it: the reply, or the error as an error envelope for this request.
pub fn answer_federation_request(
    manager: &mut FederationWsManager,
    conn_id: Uuid,
    request_id: Uuid,
    result: ApiResult<FederationWsReply>,
) -> (sent: bool)
    requires
        old(manager).wf(),
    ensures
        final(manager).wf(),
        final(manager).pending == old(manager).pending,
        sent ==> old(manager).pool@.dom().contains(conn_id) && final(manager).pool@ == old(
            manager,
        ).pool@,
        !sent ==> final(manager).pool@ == old(manager).pool@.remove(conn_id),
{
    match result {
        Ok(reply) => manager.send_reply_to_connection(conn_id, request_id, reply),
        Err(error) => manager.send_error_to_connection(
            conn_id,
            Some(request_id),
            ws_error_from(error),
        ),
    }
}

} // verus!
