//! The decisions of the loop that serves one websocket.
//!
//! The loop waits on two things at once: the next envelope to send and the
//! next frame that arrives. The functions here say what each of them leads
//! to; waiting, and turning envelopes into text and back, is left to the
//! caller.

use vstd::prelude::*;
use tokio::sync::mpsc::UnboundedSender;
use crate::auth::Principal;
use crate::types::Uuid;
use crate::types::user::{parse_subject_spec, UserRef};
use crate::types::ws::{ClientWsEnvelope, FederationWsEnvelope};
use crate::util::{host_from_issuer, host_from_issuer_spec};
use crate::ws::client_manager::ClientWsManager;
use crate::ws::federation_manager::FederationWsManager;
use crate::ws::pools::{after_authenticate, conn_of_host, is_registered, FederationConn};

verus! {

/// The kind of a websocket frame.
#[derive(Clone, Copy, Debug, PartialEq, Eq, Structural)]
pub enum FrameKind {
    Text,
    Binary,
    Ping,
    Pong,
    Close,
    /// A raw frame, as a client library may hand it on.
    Frame,
}

/// What receiving on a socket gave.
#[derive(Clone, Debug, PartialEq, Eq)]
pub enum SocketReceived {
    /// A frame of this kind; `text` is its payload where it is a text frame.
    Message { kind: FrameKind, text: String },
    /// The stream ended.
    End,
    /// Receiving failed, for this reason.
    Failed(String),
}

/// What arrived on a socket, as the loop sees it.
#[derive(Clone, Debug, PartialEq, Eq)]
pub enum FederationIncomingEvent {
    Text(String),
    Closed,
    Ignored,
    Error(String),
}

/// What became of the next outbound envelope.
#[derive(Clone, Copy, Debug, PartialEq, Eq, Structural)]
pub enum Outbound {
    /// The channel of the connection is closed: there is no next envelope.
    ChannelClosed,
    /// The envelope could not be written as text.
    NotSerialized,
    /// The text was sent.
    Sent,
    /// The socket refused the text.
    SendFailed,
}

/// What the loop does next.
#[derive(Clone, Copy, Debug, PartialEq, Eq, Structural)]
pub enum LoopStep {
    Continue,
    Stop,
}

/// What the loop does with what arrived.
#[derive(Clone, Debug, PartialEq, Eq)]
pub enum IncomingStep {
    /// The text is to be read as an envelope and handled; text that is no
    /// envelope is dropped and the loop goes on.
    Handle(String),
    Continue,
    Stop,
}

/// What arrived, from what receiving gave: text frames carry envelopes, a
/// close frame or the end of the stream closes, every other frame is ignored.
pub fn recv_event(received: SocketReceived) -> (r: FederationIncomingEvent)
    ensures
        r == (match received {
            SocketReceived::Message { kind, text } => match kind {
                FrameKind::Text => FederationIncomingEvent::Text(text),
                FrameKind::Close => FederationIncomingEvent::Closed,
                _ => FederationIncomingEvent::Ignored,
            },
            SocketReceived::End => FederationIncomingEvent::Closed,
            SocketReceived::Failed(why) => FederationIncomingEvent::Error(why),
        }),
{
    match received {
        SocketReceived::Message { kind, text } => match kind {
            FrameKind::Text => FederationIncomingEvent::Text(text),
            FrameKind::Close => FederationIncomingEvent::Closed,
            FrameKind::Binary | FrameKind::Ping | FrameKind::Pong | FrameKind::Frame => {
                FederationIncomingEvent::Ignored
            },
        },
        SocketReceived::End => FederationIncomingEvent::Closed,
        SocketReceived::Failed(why) => FederationIncomingEvent::Error(why),
    }
}

/// What the loop does with what arrived: text is handled, what is ignored
/// is passed over, a close or an error ends the loop.
pub fn after_incoming(event: FederationIncomingEvent) -> (r: IncomingStep)
    ensures
        r == (match event {
            FederationIncomingEvent::Text(payload) => IncomingStep::Handle(payload),
            FederationIncomingEvent::Closed => IncomingStep::Stop,
            FederationIncomingEvent::Ignored => IncomingStep::Continue,
            FederationIncomingEvent::Error(_) => IncomingStep::Stop,
        }),
{
    match event {
        FederationIncomingEvent::Text(payload) => IncomingStep::Handle(payload),
        FederationIncomingEvent::Closed => IncomingStep::Stop,
        FederationIncomingEvent::Ignored => IncomingStep::Continue,
        FederationIncomingEvent::Error(_) => IncomingStep::Stop,
    }
}

/// What the loop does after the next outbound envelope: it ends where the
/// channel is closed or the socket refused; an envelope that could not be
/// written is dropped.
pub fn after_outbound(outbound: Outbound) -> (r: LoopStep)
    ensures
        r == (match outbound {
            Outbound::ChannelClosed => LoopStep::Stop,
            Outbound::NotSerialized => LoopStep::Continue,
            Outbound::Sent => LoopStep::Continue,
            Outbound::SendFailed => LoopStep::Stop,
        }),
{
    match outbound {
        Outbound::ChannelClosed => LoopStep::Stop,
        Outbound::NotSerialized => LoopStep::Continue,
        Outbound::Sent => LoopStep::Continue,
        Outbound::SendFailed => LoopStep::Stop,
    }
}

/// The user whom an inbound client socket is authenticated as: the subject
/// of the access token, where the request carried a valid one.
pub open spec fn client_socket_user(principal: Option<Principal>) -> Option<(Seq<char>, Seq<char>)> {
    match principal {
        Some(Principal::Client(auth)) => parse_subject_spec(auth.claims.sub@),
        _ => None,
    }
}

/// The host that an inbound federation socket is authenticated as: the host
/// of the issuer of the federation token, in short form, where the request
/// carried a valid one.
pub open spec fn federation_socket_host(principal: Option<Principal>) -> Option<Seq<char>> {
    match principal {
        Some(Principal::Federation(auth)) => Some(host_from_issuer_spec(auth.claims.iss@)),
        _ => None,
    }
}

/// Takes an inbound client socket into the pool, and binds it to the user
/// of the access token that came with the request, if one did.
pub fn open_client_socket(
    manager: &mut ClientWsManager,
    sender: UnboundedSender<ClientWsEnvelope>,
    principal: Option<Principal>,
) -> (conn_id: Uuid)
    requires
        old(manager).wf(),
    ensures
        final(manager).wf(),
        final(manager)@.dom() == old(manager)@.dom().insert(conn_id),
        final(manager)@[conn_id].sender == sender,
        match client_socket_user(principal) {
            Some(user) =>
                final(manager)@[conn_id].user_ref.is_some() && final(manager)@[conn_id].user_ref.unwrap()@ == user,
            None => final(manager)@[conn_id].user_ref.is_none(),
        },
        forall|id: Uuid|
            id != conn_id && old(manager)@.dom().contains(id) ==> final(manager)@[id] == old(
                manager,
            )@[id],
{
    let conn_id = manager.register_connection(sender);
    match principal {
        Some(Principal::Client(auth)) => {
            match UserRef::parse_subject(auth.claims.sub.as_str()) {
                Some(user_ref) => {
                    let _ = manager.authenticate_connection(conn_id, user_ref);
                },
                None => {},
            }
        },
        _ => {},
    }
    conn_id
}

/// Takes an inbound federation socket into the pool, and binds it to the
/// host that issued the federation token that came with the request, if one
/// did. A connection that held the host is taken out; the other connections
/// stay as they are.
pub fn open_federation_socket(
    manager: &mut FederationWsManager,
    sender: UnboundedSender<FederationWsEnvelope>,
    principal: Option<Principal>,
) -> (conn_id: Uuid)
    requires
        old(manager).wf(),
    ensures
        final(manager).wf(),
        final(manager).pending == old(manager).pending,
        final(manager).pool@.dom().contains(conn_id),
        final(manager).pool@[conn_id].sender == sender,
        match federation_socket_host(principal) {
            Some(host) => {
                &&& conn_of_host(final(manager).pool@, host) == Some(conn_id)
                &&& exists|registered: Map<Uuid, FederationConn>, name: String|
                    #[trigger] is_registered(old(manager).pool@, registered, conn_id, sender)
                        && name@ == host && final(manager).pool@ == #[trigger] after_authenticate(
                        registered,
                        conn_id,
                        name,
                    )
            },
            None => is_registered(old(manager).pool@, final(manager).pool@, conn_id, sender),
        },
{
    let conn_id = manager.register_connection(sender);
    let ghost registered = manager.pool@;
    assert(is_registered(old(manager).pool@, registered, conn_id, sender));
    match principal {
        Some(Principal::Federation(auth)) => {
            let host = host_from_issuer(auth.claims.iss.as_str());
            let ghost name = host;
            let _ = manager.authenticate_connection(conn_id, host);
            assert(manager.pool@ == after_authenticate(registered, conn_id, name));
        },
        _ => {},
    }
    conn_id
}

} // verus!
