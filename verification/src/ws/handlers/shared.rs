//! What the handlers of both transports share: the plan of a request and
//! the principal that a connection stands for.

use vstd::prelude::*;
use vstd::string::*;
use crate::auth::{ClientAuth, FederationAuth, Principal, Requirement};
use crate::config::{explicit_host_spec, ServerConfig};
use crate::error::{is_refusal, ApiError, ApiResult, Refusal};
use crate::outside::MAX_UNIX_SECONDS;
use crate::types::Uuid;
use crate::types::auth::{
    is_client_access_claims, is_federation_claims, ClientAccessClaims, FederationClaims,
    ACCESS_TOKEN_LIFETIME_SECS,
};
use crate::types::user::UserRef;
use crate::util::{api_url_spec, get_api_url};
use crate::ws::client_manager::ClientWsManager;
use crate::ws::federation_manager::FederationWsManager;

verus! {

/// Why a request is turned away before anything is looked up.
#[derive(Clone, Copy, Debug, PartialEq, Eq, Structural)]
pub enum RouteRefusal {
    /// An account operation that exists over HTTP only.
    NotOverWebsocket,
    /// The server that the request names is not the server of the membership in it.
    ServerIdMismatch,
    /// A peer asks for a membership of a user of this host.
    UserHostIsLocal,
}

/// How the requirement of a request is arrived at.
#[derive(Debug, PartialEq, Eq)]
pub enum RequirementPlan {
    /// The request is open to anyone: nothing is required.
    Open,
    /// This requirement.
    Rule(Requirement),
    /// The rule for deleting a message, which names the author: the message
    /// is looked up first.
    MessageDelete { server_id: Uuid, message_id: Uuid },
}

impl RouteRefusal {
    /// The refusal as the kind and text of its error.
    pub open spec fn refusal(self) -> Refusal {
        match self {
            RouteRefusal::NotOverWebsocket => Refusal::BadRequest(
                "This auth operation is not implemented over websocket"@,
            ),
            RouteRefusal::ServerIdMismatch => Refusal::BadRequest(
                "Server ID in path does not match server ID in membership"@,
            ),
            RouteRefusal::UserHostIsLocal => Refusal::BadRequest(
                "User host in membership should not match local host"@,
            ),
        }
    }

    /// The error that answers the request.
    pub fn into_api_error(self) -> (r: ApiError)
        ensures
            is_refusal(r, self.refusal()),
    {
        match self {
            RouteRefusal::NotOverWebsocket => ApiError::BadRequest(
                String::from_str("This auth operation is not implemented over websocket"),
            ),
            RouteRefusal::ServerIdMismatch => ApiError::BadRequest(
                String::from_str("Server ID in path does not match server ID in membership"),
            ),
            RouteRefusal::UserHostIsLocal => ApiError::BadRequest(
                String::from_str("User host in membership should not match local host"),
            ),
        }
    }
}

/// The principal that the client connection `conn_id` stands for: the user
/// it was authenticated as, with claims issued now by this host for the
/// client `ws` and one hour. Fails where the connection is not authenticated.
pub fn authorize_client(config: &ServerConfig, manager: &ClientWsManager, conn_id: Uuid) -> (r:
    ApiResult<Principal>)
    requires
        manager.wf(),
    ensures
        match r {
            Ok(principal) => {
                &&& manager@.dom().contains(conn_id)
                &&& manager@[conn_id].user_ref.is_some()
                &&& is_websocket_client(
                    principal,
                    api_url_spec(explicit_host_spec(config.local_host_raw@, config.port)),
                    manager@[conn_id].user_ref.unwrap()@,
                )
            },
            Err(e) => {
                &&& !(manager@.dom().contains(conn_id) && manager@[conn_id].user_ref.is_some())
                &&& is_refusal(
                    e,
                    Refusal::AuthError("Client websocket connection is not authenticated"@),
                )
            },
        },
{
    match manager.authenticated_user_ref(conn_id) {
        Some(user_ref) => {
            let client_id = String::from_str("ws");
            let scope = String::from_str("openid");
            let issuer = config.api_url();
            let ghost client_id_copy = client_id;
            let ghost scope_copy = scope;
            let ghost issuer_copy = issuer;
            let claims = ClientAccessClaims::new(
                &user_ref,
                client_id,
                issuer,
                scope,
                ACCESS_TOKEN_LIFETIME_SECS,
            );
            proof {
                let now = choose|now: i64|
                    -MAX_UNIX_SECONDS < now < MAX_UNIX_SECONDS && is_client_access_claims(
                        claims,
                        user_ref@,
                        client_id_copy,
                        issuer_copy@,
                        scope_copy,
                        ACCESS_TOKEN_LIFETIME_SECS,
                        now,
                    );
                assert(is_client_access_claims_text(claims, user_ref@, "ws"@, "openid"@, now));
            }
            Ok(Principal::Client(ClientAuth { claims }))
        },
        None => Err(
            ApiError::AuthError(
                String::from_str("Client websocket connection is not authenticated"),
            ),
        ),
    }
}

/// Whether `principal` is a client acting as `user`, with claims issued by
/// `issuer` for the client `ws` and the scope `openid`, at some moment that
/// the clock can give, for one hour.
pub open spec fn is_websocket_client(
    principal: Principal,
    issuer: Seq<char>,
    user: (Seq<char>, Seq<char>),
) -> bool {
    principal matches Principal::Client(auth) && auth.claims.iss@ == issuer && exists|now: i64|
        -MAX_UNIX_SECONDS < now < MAX_UNIX_SECONDS && #[trigger] is_client_access_claims_text(
            auth.claims,
            user,
            "ws"@,
            "openid"@,
            now,
        )
}

/// Whether `principal` is the peer `issuer` calling `audience`, on behalf of
/// `user_ref` where one is given, with claims issued at some moment that the
/// clock can give, for one hour.
pub open spec fn is_websocket_peer(
    principal: Principal,
    issuer: Seq<char>,
    audience: Seq<char>,
    user_ref: Option<UserRef>,
) -> bool {
    principal matches Principal::Federation(auth) && exists|now: i64|
        -MAX_UNIX_SECONDS < now < MAX_UNIX_SECONDS && #[trigger] is_federation_claims(
            auth.claims,
            issuer,
            audience,
            user_ref,
            ACCESS_TOKEN_LIFETIME_SECS,
            now,
        )
}

/// Whether `claims` are for `user`, the client `client_id` and the scope
/// `scope`, issued at `now` for one hour, with the issuer as sole audience.
pub open spec fn is_client_access_claims_text(
    claims: ClientAccessClaims,
    user: (Seq<char>, Seq<char>),
    client_id: Seq<char>,
    scope: Seq<char>,
    now: i64,
) -> bool {
    &&& claims.sub@ == crate::types::user::subject_spec(user.0, user.1)
    &&& claims.aud@.len() == 1
    &&& claims.aud@[0]@ == claims.iss@
    &&& claims.exp == now + ACCESS_TOKEN_LIFETIME_SECS
    &&& claims.iat == now
    &&& claims.scope@ == scope
    &&& claims.client_id@ == client_id
}

/// The principal that the federation connection `conn_id` stands for: the
/// host it was authenticated as, with claims issued now in that host's name
/// for this host and one hour, on behalf of `delegated_user_ref` where one is
/// given. Fails where the connection is not authenticated.
pub fn authorize_federation(
    config: &ServerConfig,
    manager: &FederationWsManager,
    conn_id: Uuid,
    delegated_user_ref: Option<UserRef>,
) -> (r: ApiResult<Principal>)
    requires
        manager.wf(),
    ensures
        match r {
            Ok(principal) => {
                &&& manager.pool@.dom().contains(conn_id)
                &&& manager.pool@[conn_id].host.is_some()
                &&& is_websocket_peer(
                    principal,
                    api_url_spec(manager.pool@[conn_id].host.unwrap()@),
                    api_url_spec(explicit_host_spec(config.local_host_raw@, config.port)),
                    delegated_user_ref,
                )
            },
            Err(e) => {
                &&& !(manager.pool@.dom().contains(conn_id) && manager.pool@[conn_id].host.is_some())
                &&& is_refusal(
                    e,
                    Refusal::AuthError("Federation websocket connection is not authenticated"@),
                )
            },
        },
{
    match manager.authenticated_host(conn_id) {
        Some(host) => {
            let issuer = get_api_url(host.as_str());
            let claims = match delegated_user_ref {
                Some(user_ref) => FederationClaims::new_delegated(
                    issuer,
                    config.api_url(),
                    user_ref,
                    ACCESS_TOKEN_LIFETIME_SECS,
                ),
                None => FederationClaims::new_server_only(
                    issuer,
                    config.api_url(),
                    ACCESS_TOKEN_LIFETIME_SECS,
                ),
            };
            Ok(Principal::Federation(FederationAuth { claims }))
        },
        None => Err(
            ApiError::AuthError(
                String::from_str("Federation websocket connection is not authenticated"),
            ),
        ),
    }
}

} // verus!
