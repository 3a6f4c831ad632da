//! The error kinds that operations return, and how each is shown over HTTP
//! and over a websocket.

use vstd::prelude::*;
use vstd::string::*;
use vstd::std_specs::convert::FromSpecImpl;
use crate::text::{decimal, str_eq, u16_to_string};
use crate::types::ws::WsError;

verus! {

/// What a request to another host's HTTP API failed with.
#[derive(Clone, Debug, PartialEq, Eq)]
pub enum ClientError {
    /// The peer answered with a status that is no success, and this body.
    Status(u16, String),
    /// The request did not complete.
    Transport(String),
}

/// How a statement on the store failed, as the store's driver reports it.
#[derive(Clone, Debug, PartialEq, Eq)]
pub enum DbFailure {
    /// No connection became free in time.
    PoolTimedOut(String),
    /// The pool was closed.
    PoolClosed(String),
    /// The database refused the statement, with its SQLSTATE code if it gave one.
    Database { code: Option<String>, message: String },
    /// A row was expected and none came.
    RowNotFound,
    /// Anything else, as text.
    Other(String),
}

/// The error of an operation.
#[derive(Clone, Debug, PartialEq, Eq)]
pub enum ApiError {
    DbConnectionError(String),
    UniqueViolation,
    NotFound,
    DatabaseError(String),
    AuthError(String),
    BadRequest(String),
    Unknown(String),
    Internal(String),
    Client(ClientError),
}

pub type ApiResult<T> = Result<T, ApiError>;

/// A refusal by kind and text, as a value of the model.
pub enum Refusal {
    AuthError(Seq<char>),
    BadRequest(Seq<char>),
    Internal(Seq<char>),
}

/// Whether `e` is the refusal `refusal`.
pub open spec fn is_refusal(e: ApiError, refusal: Refusal) -> bool {
    match refusal {
        Refusal::AuthError(m) => e matches ApiError::AuthError(t) && t@ == m,
        Refusal::BadRequest(m) => e matches ApiError::BadRequest(t) && t@ == m,
        Refusal::Internal(m) => e matches ApiError::Internal(t) && t@ == m,
    }
}

/// Whether the check `r` passed where `refusal` is `None`, and else failed
/// with that refusal.
pub open spec fn is_check_result(r: ApiResult<()>, refusal: Option<Refusal>) -> bool {
    match refusal {
        None => r.is_ok(),
        Some(refused) => r matches Err(e) && is_refusal(e, refused),
    }
}

/// The text of a client error.
pub open spec fn client_error_message(e: ClientError) -> Seq<char> {
    match e {
        ClientError::Status(code, body) => "status "@ + decimal(code as nat) + ": "@ + body@,
        ClientError::Transport(text) => text@,
    }
}

/// The one-line text of an error.
pub open spec fn api_error_message(e: ApiError) -> Seq<char> {
    match e {
        ApiError::DbConnectionError(m) => "Database connection error: "@ + m@,
        ApiError::UniqueViolation => "Unique constraint violation"@,
        ApiError::NotFound => "Resource not found"@,
        ApiError::DatabaseError(m) => "Database error: "@ + m@,
        ApiError::AuthError(m) => "Unauthorized: "@ + m@,
        ApiError::BadRequest(m) => "Bad request: "@ + m@,
        ApiError::Unknown(m) => "Unknown error: "@ + m@,
        ApiError::Internal(m) => "Internal error: "@ + m@,
        ApiError::Client(c) => "Upstream error: "@ + client_error_message(c),
    }
}

/// The HTTP status that answers with an error: 500 for store and internal
/// failures, 409 for a conflict, 404, 401 and 400 for their kinds, the
/// peer's own status for an upstream answer, 502 for other upstream failures.
pub open spec fn api_error_status(e: ApiError) -> u16 {
    match e {
        ApiError::DbConnectionError(_) => 500,
        ApiError::DatabaseError(_) => 500,
        ApiError::Internal(_) => 500,
        ApiError::Unknown(_) => 500,
        ApiError::UniqueViolation => 409,
        ApiError::NotFound => 404,
        ApiError::AuthError(_) => 401,
        ApiError::BadRequest(_) => 400,
        ApiError::Client(ClientError::Status(code, _)) => code,
        ApiError::Client(ClientError::Transport(_)) => 502,
    }
}

/// The code under which an error travels in a websocket envelope.
pub open spec fn ws_error_code(e: ApiError) -> Seq<char> {
    match e {
        ApiError::AuthError(_) => "auth_error"@,
        ApiError::BadRequest(_) => "bad_request"@,
        ApiError::NotFound => "not_found"@,
        ApiError::UniqueViolation => "conflict"@,
        _ => "internal_error"@,
    }
}

/// The error that a store failure becomes: SQLSTATE 23505 is a unique
/// violation, a missing row is not-found, pool trouble is a connection error.
pub open spec fn api_error_of_db_failure(f: DbFailure) -> ApiError {
    match f {
        DbFailure::PoolTimedOut(text) => ApiError::DbConnectionError(text),
        DbFailure::PoolClosed(text) => ApiError::DbConnectionError(text),
        DbFailure::Database { code, message } => if code.is_some() && code.unwrap()@ == "23505"@ {
            ApiError::UniqueViolation
        } else {
            ApiError::DatabaseError(message)
        },
        DbFailure::RowNotFound => ApiError::NotFound,
        DbFailure::Other(text) => ApiError::Unknown(text),
    }
}

impl ClientError {
    /// The text of this error.
    pub fn to_string(&self) -> (r: String)
        ensures
            r@ == client_error_message(*self),
    {
        match self {
            ClientError::Status(code, body) => String::from_str("status ").concat(
                u16_to_string(*code).as_str(),
            ).concat(": ").concat(body.as_str()),
            ClientError::Transport(text) => text.clone(),
        }
    }
}

impl ApiError {
    /// The one-line text of this error.
    pub fn to_string(&self) -> (r: String)
        ensures
            r@ == api_error_message(*self),
    {
        match self {
            ApiError::DbConnectionError(m) => String::from_str(
                "Database connection error: ",
            ).concat(m.as_str()),
            ApiError::UniqueViolation => String::from_str("Unique constraint violation"),
            ApiError::NotFound => String::from_str("Resource not found"),
            ApiError::DatabaseError(m) => String::from_str("Database error: ").concat(m.as_str()),
            ApiError::AuthError(m) => String::from_str("Unauthorized: ").concat(m.as_str()),
            ApiError::BadRequest(m) => String::from_str("Bad request: ").concat(m.as_str()),
            ApiError::Unknown(m) => String::from_str("Unknown error: ").concat(m.as_str()),
            ApiError::Internal(m) => String::from_str("Internal error: ").concat(m.as_str()),
            ApiError::Client(c) => String::from_str("Upstream error: ").concat(
                c.to_string().as_str(),
            ),
        }
    }

    /// The HTTP status that answers with this error.
    pub fn status_code(&self) -> (r: u16)
        ensures
            r == api_error_status(*self),
    {
        match self {
            ApiError::DbConnectionError(_)
            | ApiError::DatabaseError(_)
            | ApiError::Internal(_)
            | ApiError::Unknown(_) => 500,
            ApiError::UniqueViolation => 409,
            ApiError::NotFound => 404,
            ApiError::AuthError(_) => 401,
            ApiError::BadRequest(_) => 400,
            ApiError::Client(ClientError::Status(code, _)) => *code,
            ApiError::Client(ClientError::Transport(_)) => 502,
        }
    }

    /// The error of a task that could not be joined.
    pub fn from_join_failure(text: &str) -> (r: Self)
        ensures
            r matches ApiError::Unknown(m) && m@ == "Join error: "@ + text@,
    {
        ApiError::Unknown(String::from_str("Join error: ").concat(text))
    }
}

impl From<DbFailure> for ApiError {
    fn from(e: DbFailure) -> (r: Self) {
        match e {
            DbFailure::PoolTimedOut(text) => ApiError::DbConnectionError(text),
            DbFailure::PoolClosed(text) => ApiError::DbConnectionError(text),
            DbFailure::Database { code, message } => {
                let unique = match &code {
                    Some(c) => str_eq(c.as_str(), "23505"),
                    None => false,
                };
                if unique {
                    ApiError::UniqueViolation
                } else {
                    ApiError::DatabaseError(message)
                }
            },
            DbFailure::RowNotFound => ApiError::NotFound,
            DbFailure::Other(text) => ApiError::Unknown(text),
        }
    }
}

impl FromSpecImpl<DbFailure> for ApiError {
    open spec fn obeys_from_spec() -> bool {
        true
    }

    open spec fn from_spec(e: DbFailure) -> Self {
        api_error_of_db_failure(e)
    }
}

impl From<ClientError> for ApiError {
    fn from(e: ClientError) -> (r: Self) {
        ApiError::Client(e)
    }
}

impl FromSpecImpl<ClientError> for ApiError {
    open spec fn obeys_from_spec() -> bool {
        true
    }

    open spec fn from_spec(e: ClientError) -> Self {
        ApiError::Client(e)
    }
}

/// The envelope error for `error`: its code, its one-line text, no details.
pub fn ws_error_from(error: ApiError) -> (r: WsError)
    ensures
        r.code@ == ws_error_code(error),
        r.message@ == api_error_message(error),
        r.details.is_none(),
{
    let code = match &error {
        ApiError::AuthError(_) => "auth_error",
        ApiError::BadRequest(_) => "bad_request",
        ApiError::NotFound => "not_found",
        ApiError::UniqueViolation => "conflict",
        ApiError::DbConnectionError(_)
        | ApiError::DatabaseError(_)
        | ApiError::Internal(_)
        | ApiError::Unknown(_)
        | ApiError::Client(_) => "internal_error",
    };
    WsError { code: String::from_str(code), message: error.to_string(), details: None }
}

} // verus!
