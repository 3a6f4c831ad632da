//! The HTTP surface: what each endpoint stands for.
//!
//! An endpoint that carries out an operation leads to the same requirement
//! and the same operation as the request of the same name on the client
//! websocket; it differs in the status that answers success.

use vstd::prelude::*;
use vstd::string::*;
use crate::text::{i32_to_string, signed_decimal};
use crate::ws::handlers::client::ClientRoute;

pub mod auth;
pub mod channels;
pub mod memberships;
pub mod messages;
pub mod servers;
pub mod users;

verus! {

/// The status of a read that succeeded.
pub const STATUS_OK: u16 = 200;

/// The status of a creation that succeeded.
pub const STATUS_CREATED: u16 = 201;

/// The status of a deletion that succeeded.
pub const STATUS_NO_CONTENT: u16 = 204;

/// What an endpoint leads to, and the status that answers its success.
#[derive(Debug, PartialEq, Eq)]
pub struct HttpRoute {
    pub route: ClientRoute,
    pub success: u16,
}

/// The query of `GET /ping`.
#[derive(Clone, Debug, PartialEq, Eq)]
pub struct PingParams {
    pub id: Option<i32>,
    pub msg: Option<String>,
}

/// The answer to a ping: `pong`, then the identifier in parentheses where
/// one is given, then the message in quotes after a colon where one is given.
pub open spec fn ping_message(params: PingParams) -> Seq<char> {
    let id_part = match params.id {
        Some(id) => " ("@ + signed_decimal(id as int) + ")"@,
        None => Seq::empty(),
    };
    let msg_part = match params.msg {
        Some(msg) => ": \""@ + msg@ + "\""@,
        None => Seq::empty(),
    };
    "pong"@ + id_part + msg_part
}

/// Answers `GET /ping`.
pub fn ping(params: &PingParams) -> (r: String)
    ensures
        r@ == ping_message(*params),
{
    let mut message = String::from_str("pong");
    match params.id {
        Some(id) => {
            message.append(" (");
            message.append(i32_to_string(id).as_str());
            message.append(")");
        },
        None => {
        },
    }
    match &params.msg {
        Some(msg) => {
            message.append(": \"");
            message.append(msg.as_str());
            message.append("\"");
        },
        None => {
        },
    }
    message
}

} // verus!
