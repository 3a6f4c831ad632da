use runelink::error::{ws_error_from, ApiError, ClientError, DbFailure};
use runelink::types::user::{NewUser, User, UserRef, UserRole};
use runelink::types::ws::WsError;
use runelink::ws::error::FederationRequestError;

#[test]
fn errors_map_to_their_http_status() {
    assert_eq!(ApiError::DbConnectionError("x".into()).status_code(), 500);
    assert_eq!(ApiError::DatabaseError("x".into()).status_code(), 500);
    assert_eq!(ApiError::Internal("x".into()).status_code(), 500);
    assert_eq!(ApiError::Unknown("x".into()).status_code(), 500);
    assert_eq!(ApiError::UniqueViolation.status_code(), 409);
    assert_eq!(ApiError::NotFound.status_code(), 404);
    assert_eq!(ApiError::AuthError("x".into()).status_code(), 401);
    assert_eq!(ApiError::BadRequest("x".into()).status_code(), 400);
    assert_eq!(ApiError::Client(ClientError::Status(418, "t".into())).status_code(), 418);
    assert_eq!(ApiError::Client(ClientError::Transport("t".into())).status_code(), 502);
}

#[test]
fn errors_have_one_line_texts() {
    assert_eq!(ApiError::DbConnectionError("x".into()).to_string(), "Database connection error: x");
    assert_eq!(ApiError::UniqueViolation.to_string(), "Unique constraint violation");
    assert_eq!(ApiError::NotFound.to_string(), "Resource not found");
    assert_eq!(ApiError::DatabaseError("x".into()).to_string(), "Database error: x");
    assert_eq!(ApiError::AuthError("x".into()).to_string(), "Unauthorized: x");
    assert_eq!(ApiError::BadRequest("x".into()).to_string(), "Bad request: x");
    assert_eq!(ApiError::Unknown("x".into()).to_string(), "Unknown error: x");
    assert_eq!(ApiError::Internal("x".into()).to_string(), "Internal error: x");
    assert_eq!(
        ApiError::Client(ClientError::Status(404, "gone".into())).to_string(),
        "Upstream error: status 404: gone"
    );
    assert_eq!(ApiError::from_join_failure("boom"), ApiError::Unknown("Join error: boom".into()));
}

#[test]
fn store_failures_become_errors() {
    assert_eq!(
        ApiError::from(DbFailure::PoolTimedOut("t".into())),
        ApiError::DbConnectionError("t".into())
    );
    assert_eq!(
        ApiError::from(DbFailure::PoolClosed("c".into())),
        ApiError::DbConnectionError("c".into())
    );
    assert_eq!(
        ApiError::from(DbFailure::Database { code: Some("23505".into()), message: "dup".into() }),
        ApiError::UniqueViolation
    );
    assert_eq!(
        ApiError::from(DbFailure::Database { code: Some("23503".into()), message: "fk".into() }),
        ApiError::DatabaseError("fk".into())
    );
    assert_eq!(
        ApiError::from(DbFailure::Database { code: None, message: "m".into() }),
        ApiError::DatabaseError("m".into())
    );
    assert_eq!(ApiError::from(DbFailure::RowNotFound), ApiError::NotFound);
    assert_eq!(ApiError::from(DbFailure::Other("o".into())), ApiError::Unknown("o".into()));
    assert_eq!(
        ApiError::from(ClientError::Transport("t".into())),
        ApiError::Client(ClientError::Transport("t".into()))
    );
}

#[test]
fn errors_travel_in_envelopes_under_their_code() {
    let cases = [
        (ApiError::AuthError("no".into()), "auth_error", "Unauthorized: no"),
        (ApiError::BadRequest("b".into()), "bad_request", "Bad request: b"),
        (ApiError::NotFound, "not_found", "Resource not found"),
        (ApiError::UniqueViolation, "conflict", "Unique constraint violation"),
        (ApiError::Internal("i".into()), "internal_error", "Internal error: i"),
        (ApiError::Unknown("u".into()), "internal_error", "Unknown error: u"),
        (ApiError::DatabaseError("d".into()), "internal_error", "Database error: d"),
        (ApiError::DbConnectionError("c".into()), "internal_error", "Database connection error: c"),
        (
            ApiError::Client(ClientError::Transport("t".into())),
            "internal_error",
            "Upstream error: t",
        ),
    ];
    for (error, code, message) in cases {
        assert_eq!(
            ws_error_from(error),
            WsError { code: code.to_string(), message: message.to_string(), details: None }
        );
    }
}

#[test]
fn failed_federation_requests_become_errors() {
    let remote = |code: &str| FederationRequestError::Remote {
        code: code.to_string(),
        message: "m".to_string(),
        error: WsError { code: code.to_string(), message: "m".to_string(), details: None },
    };
    assert_eq!(
        FederationRequestError::HostUnavailable { host: "x".into() }.into_api_error("h2"),
        ApiError::Internal("No active federation websocket connection for host h2".into())
    );
    assert_eq!(
        FederationRequestError::Timeout { host: "x".into(), request_id: 1 }.into_api_error("h2"),
        ApiError::Internal("Timed out waiting for federation websocket reply from h2".into())
    );
    assert_eq!(
        FederationRequestError::ChannelClosed { request_id: 1 }.into_api_error("h2"),
        ApiError::Internal("Federation websocket reply channel closed for host h2".into())
    );
    assert_eq!(remote("auth_error").into_api_error("h2"), ApiError::AuthError("m".into()));
    assert_eq!(remote("bad_request").into_api_error("h2"), ApiError::BadRequest("m".into()));
    assert_eq!(remote("not_found").into_api_error("h2"), ApiError::NotFound);
    assert_eq!(remote("conflict").into_api_error("h2"), ApiError::UniqueViolation);
    assert_eq!(
        remote("internal_error").into_api_error("h2"),
        ApiError::Internal(
            "Remote federation websocket error from h2 [internal_error]: m".into()
        )
    );
}

#[test]
fn a_timeout_is_answered_with_status_500_and_says_so() {
    let error =
        FederationRequestError::Timeout { host: "h2:7000".into(), request_id: 7 }.into_api_error("h2");
    assert_eq!(error.status_code(), 500);
    assert!(error.to_string().contains("Timed out"));
}

#[test]
fn subjects_are_written_and_read() {
    let alice = UserRef::new("alice".to_string(), "h1:7000".to_string());
    assert_eq!(alice.as_subject(), "alice@h1:7000");
    assert_eq!(UserRef::parse_subject("alice@h1:7000"), Some(alice.clone()));
    assert_eq!(UserRef::parse_subject(&alice.as_subject()), Some(alice));
    assert_eq!(UserRef::parse_subject("alice"), None);
    assert_eq!(UserRef::parse_subject(""), None);
    assert_eq!(
        UserRef::parse_subject("a@b@c"),
        Some(UserRef::new("a".to_string(), "b@c".to_string()))
    );
    assert_eq!(UserRef::parse_subject("@h"), Some(UserRef::new(String::new(), "h".to_string())));
    assert!(UserRef::new("a".into(), "h".into()).is_on_host("h"));
    assert!(UserRef::new("a".into(), "h".into()).is_on_host("h:7000"));
    assert!(!UserRef::new("a".into(), "h".into()).is_on_host("h:7001"));
    assert!(!UserRef::new("a".into(), "h".into()).is_on_host("g"));
}

#[test]
fn a_user_gives_its_reference() {
    let user = User {
        name: "bob".into(),
        host: "h2".into(),
        role: UserRole::Admin,
        created_at: 1,
        updated_at: 2,
        synced_at: None,
    };
    assert_eq!(user.as_ref(), UserRef::new("bob".into(), "h2".into()));
    assert_eq!(UserRef::from(user.clone()), UserRef::new("bob".into(), "h2".into()));
    assert_eq!(user.clone(), user);
    let new_user = NewUser { name: "n".into(), host: "h".into(), role: UserRole::User };
    assert_eq!(new_user.clone(), new_user);
}
