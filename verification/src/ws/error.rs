//! What a federation request can fail with.

use vstd::prelude::*;
use vstd::string::*;
use crate::error::ApiError;
use crate::text::str_eq;
use crate::types::Uuid;
use crate::types::ws::WsError;

verus! {

pub type FederationRequestResult<T> = Result<T, FederationRequestError>;

/// The failure of a request to a peer host.
#[derive(Clone, Debug, PartialEq, Eq)]
pub enum FederationRequestError {
    /// The host has no live connection and none could be opened.
    HostUnavailable { host: String },
    /// No reply came within the timeout.
    Timeout { host: String, request_id: Uuid },
    /// The waiter was dropped before a reply came.
    ChannelClosed { request_id: Uuid },
    /// The peer answered with an error.
    Remote { code: String, message: String, error: WsError },
}

/// The error of an operation that a failed federation request to `host`
/// becomes. A remote error keeps its kind where its code names one.
pub open spec fn api_error_of_request_error(e: FederationRequestError, host: Seq<char>, r: ApiError) -> bool {
    match e {
        FederationRequestError::HostUnavailable { .. } => r matches ApiError::Internal(m) && m@
            == "No active federation websocket connection for host "@ + host,
        FederationRequestError::Timeout { .. } => r matches ApiError::Internal(m) && m@
            == "Timed out waiting for federation websocket reply from "@ + host,
        FederationRequestError::ChannelClosed { .. } => r matches ApiError::Internal(m) && m@
            == "Federation websocket reply channel closed for host "@ + host,
        FederationRequestError::Remote { code, message, .. } => if code@ == "auth_error"@ {
            r == ApiError::AuthError(message)
        } else if code@ == "bad_request"@ {
            r == ApiError::BadRequest(message)
        } else if code@ == "not_found"@ {
            r == ApiError::NotFound
        } else if code@ == "conflict"@ {
            r == ApiError::UniqueViolation
        } else {
            r matches ApiError::Internal(m) && m@ == "Remote federation websocket error from "@
                + host + " ["@ + code@ + "]: "@ + message@
        },
    }
}

impl FederationRequestError {
    /// The error of the operation that made the request to `host`.
    pub fn into_api_error(self, host: &str) -> (r: ApiError)
        ensures
            api_error_of_request_error(self, host@, r),
    {
        match self {
            FederationRequestError::HostUnavailable { .. } => ApiError::Internal(
                String::from_str("No active federation websocket connection for host ").concat(
                    host,
                ),
            ),
            FederationRequestError::Timeout { .. } => ApiError::Internal(
                String::from_str("Timed out waiting for federation websocket reply from ").concat(
                    host,
                ),
            ),
            FederationRequestError::ChannelClosed { .. } => ApiError::Internal(
                String::from_str("Federation websocket reply channel closed for host ").concat(
                    host,
                ),
            ),
            FederationRequestError::Remote { code, message, .. } => {
                if str_eq(code.as_str(), "auth_error") {
                    ApiError::AuthError(message)
                } else if str_eq(code.as_str(), "bad_request") {
                    ApiError::BadRequest(message)
                } else if str_eq(code.as_str(), "not_found") {
                    ApiError::NotFound
                } else if str_eq(code.as_str(), "conflict") {
                    ApiError::UniqueViolation
                } else {
                    ApiError::Internal(
                        String::from_str("Remote federation websocket error from ").concat(
                            host,
                        ).concat(" [").concat(code.as_str()).concat("]: ").concat(
                            message.as_str(),
                        ),
                    )
                }
            },
        }
    }
}

} // verus!
