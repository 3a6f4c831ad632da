//! The account endpoints: discovery, key set, token grants and signup.

use vstd::prelude::*;
use vstd::string::*;
use crate::config::{explicit_host_spec, local_host_spec, ServerConfig};
use crate::error::{is_check_result, is_refusal, ApiError, ApiResult, Refusal};
use crate::key_manager::KeyManager;
use crate::outside::{
    argon2_hash, argon2_verifies, argon2_verify, base64url_nopad, MAX_UNIX_SECONDS,
};
use crate::text::str_eq;
use crate::types::Timestamp;
use crate::types::auth::{
    is_client_access_claims, ClientAccessClaims, JwksResponse, OidcDiscoveryDocument, RefreshToken,
    SignupRequest, TokenRequest, TokenResponse, ACCESS_TOKEN_LIFETIME_SECS, REFRESH_TOKEN_BYTES,
    REFRESH_TOKEN_LIFETIME_SECS,
};
use crate::types::user::{NewUser, UserRef, UserRole};
use crate::util::api_url_spec;
use crate::ws::handlers::client::{discovery_document, jwks_response};

verus! {

/// What a token request asks for.
#[derive(Clone, PartialEq, Eq)]
pub enum Grant {
    /// A token for a user who proves a password.
    Password { username: String, password: String },
    /// A token for the holder of a refresh token.
    RefreshToken { refresh_token: String },
}

/// A token request that is complete for its grant.
#[derive(Clone, PartialEq, Eq)]
pub struct GrantRequest {
    pub grant: Grant,
    /// The client that asks; `default` where the request names none.
    pub client_id: String,
    /// The scope that is asked for; `openid` where the request names none.
    pub scope: String,
}

/// The text of the option, or `default` where there is none.
pub open spec fn text_or(value: Option<String>, default: Seq<char>) -> Seq<char> {
    match value {
        Some(s) => s@,
        None => default,
    }
}

/// What a token request is refused with: a field that its grant needs is
/// missing, or the grant is of no known type.
pub open spec fn grant_refusal(req: TokenRequest) -> Option<Refusal> {
    if req.grant_type@ == "password"@ {
        if req.username.is_none() {
            Some(Refusal::BadRequest("missing username"@))
        } else if req.password.is_none() {
            Some(Refusal::BadRequest("missing password"@))
        } else {
            None
        }
    } else if req.grant_type@ == "refresh_token"@ {
        if req.refresh_token.is_none() {
            Some(Refusal::BadRequest("missing refresh_token"@))
        } else {
            None
        }
    } else {
        Some(Refusal::BadRequest("unsupported grant_type"@))
    }
}

/// The grant that a complete token request asks for.
pub open spec fn grant_of(req: TokenRequest) -> Grant {
    if req.grant_type@ == "password"@ {
        Grant::Password { username: req.username.unwrap(), password: req.password.unwrap() }
    } else {
        Grant::RefreshToken { refresh_token: req.refresh_token.unwrap() }
    }
}

/// `GET /.well-known/openid-configuration`.
pub fn discovery(config: &ServerConfig) -> (r: OidcDiscoveryDocument)
    ensures
        r.issuer@ == api_url_spec(explicit_host_spec(config.local_host_raw@, config.port)),
        r.jwks_uri@ == r.issuer@ + "/.well-known/jwks.json"@,
        r.token_endpoint@ == r.issuer@ + "/auth/token"@,
        r.userinfo_endpoint@ == r.issuer@ + "/auth/userinfo"@,
{
    discovery_document(config)
}

/// `GET /.well-known/jwks.json`.
pub fn jwks(key_manager: &KeyManager) -> (r: JwksResponse)
    ensures
        r.keys@ == seq![key_manager.public_jwk],
{
    jwks_response(&key_manager.public_jwk)
}

/// `POST /auth/token`, first step: reads the grant out of the request.
pub fn token(req: TokenRequest) -> (r: ApiResult<GrantRequest>)
    ensures
        match grant_refusal(req) {
            Some(refused) => r matches Err(e) && is_refusal(e, refused),
            None => r matches Ok(g) && g.grant == grant_of(req) && g.client_id@ == text_or(
                req.client_id,
                "default"@,
            ) && g.scope@ == text_or(req.scope, "openid"@),
        },
{
    let client_id = match req.client_id {
        Some(c) => c,
        None => String::from_str("default"),
    };
    let scope = match req.scope {
        Some(s) => s,
        None => String::from_str("openid"),
    };
    if str_eq(req.grant_type.as_str(), "password") {
        let username = match req.username {
            Some(u) => u,
            None => {
                return Err(ApiError::BadRequest(String::from_str("missing username")));
            },
        };
        let password = match req.password {
            Some(p) => p,
            None => {
                return Err(ApiError::BadRequest(String::from_str("missing password")));
            },
        };
        Ok(GrantRequest { grant: Grant::Password { username, password }, client_id, scope })
    } else if str_eq(req.grant_type.as_str(), "refresh_token") {
        let refresh_token = match req.refresh_token {
            Some(t) => t,
            None => {
                return Err(ApiError::BadRequest(String::from_str("missing refresh_token")));
            },
        };
        Ok(GrantRequest { grant: Grant::RefreshToken { refresh_token }, client_id, scope })
    } else {
        proof {
            reveal_strlit("password");
            reveal_strlit("refresh_token");
        }
        Err(ApiError::BadRequest(String::from_str("unsupported grant_type")))
    }
}

/// The user of this host whom a password grant names.
pub fn password_user(config: &ServerConfig, username: String) -> (r: UserRef)
    ensures
        r.name == username,
        r.host@ == local_host_spec(config.local_host_raw@, config.port),
{
    UserRef::new(username, config.local_host())
}

/// Checks the password of a password grant against the hash of the account.
pub fn check_password(password: &str, password_hash: &str) -> (r: ApiResult<()>)
    ensures
        is_check_result(
            r,
            match argon2_verifies(password@, password_hash@) {
                None => Some(Refusal::AuthError("invalid password hash"@)),
                Some(false) => Some(Refusal::AuthError("invalid credentials"@)),
                Some(true) => None,
            },
        ),
{
    match argon2_verify(password, password_hash) {
        None => Err(ApiError::AuthError(String::from_str("invalid password hash"))),
        Some(false) => Err(ApiError::AuthError(String::from_str("invalid credentials"))),
        Some(true) => Ok(()),
    }
}

/// The claims of the access token that a grant earns `user_ref`: issued now
/// by this host, for one hour.
pub fn access_claims(config: &ServerConfig, user_ref: &UserRef, client_id: String, scope: String) -> (r:
    ClientAccessClaims)
    ensures
        exists|now: i64|
            -MAX_UNIX_SECONDS < now < MAX_UNIX_SECONDS && #[trigger] is_client_access_claims(
                r,
                user_ref@,
                client_id,
                api_url_spec(explicit_host_spec(config.local_host_raw@, config.port)),
                scope,
                ACCESS_TOKEN_LIFETIME_SECS,
                now,
            ),
{
    ClientAccessClaims::new(user_ref, client_id, config.api_url(), scope, ACCESS_TOKEN_LIFETIME_SECS)
}

/// The refresh token that a password grant earns: fresh random bytes in
/// base64url, valid for thirty days.
pub fn new_refresh_token(user_ref: UserRef, client_id: String) -> (r: RefreshToken)
    ensures
        exists|bytes: Seq<u8>|
            bytes.len() == REFRESH_TOKEN_BYTES && r.token@ == #[trigger] base64url_nopad(bytes),
        r.user_name == user_ref.name,
        r.user_host == user_ref.host,
        r.client_id == client_id,
        r.expires_at == r.issued_at + REFRESH_TOKEN_LIFETIME_SECS * 1_000_000_000,
        !r.revoked,
{
    RefreshToken::new(user_ref, client_id, REFRESH_TOKEN_LIFETIME_SECS)
}

/// Checks that a refresh token can be redeemed at `now`: it is not revoked
/// and expires later.
pub fn check_refresh_token(token: &RefreshToken, now: Timestamp) -> (r: ApiResult<()>)
    ensures
        is_check_result(
            r,
            if token.revoked || token.expires_at <= now {
                Some(Refusal::AuthError("refresh token expired or revoked"@))
            } else {
                None
            },
        ),
{
    if token.revoked || token.expires_at <= now {
        return Err(ApiError::AuthError(String::from_str("refresh token expired or revoked")));
    }
    Ok(())
}

/// The user whom a refresh token belongs to.
pub fn refresh_user(token: &RefreshToken) -> (r: UserRef)
    ensures
        r == (UserRef { name: token.user_name, host: token.user_host }),
{
    UserRef::new(token.user_name.clone(), token.user_host.clone())
}

/// The answer to a grant: the signed access token, valid for an hour, and
/// the refresh token. A refresh grant hands its refresh token back.
pub fn token_response(access_token: String, refresh_token: String, scope: String) -> (r:
    TokenResponse)
    ensures
        r.access_token == access_token,
        r.token_type@ == "Bearer"@,
        r.expires_in == ACCESS_TOKEN_LIFETIME_SECS,
        r.refresh_token == refresh_token,
        r.scope == scope,
{
    TokenResponse {
        access_token,
        token_type: String::from_str("Bearer"),
        expires_in: ACCESS_TOKEN_LIFETIME_SECS,
        refresh_token,
        scope,
    }
}

/// The error of a token that could not be signed.
pub fn signing_failed(why: &str) -> (r: ApiError)
    ensures
        is_refusal(r, Refusal::Internal("jwt error: "@ + why@)),
{
    ApiError::Internal(String::from_str("jwt error: ").concat(why))
}

/// `POST /auth/signup`, first step: the user to create on this host, with
/// the role of a plain user.
pub fn signup(config: &ServerConfig, req: &SignupRequest) -> (r: NewUser)
    ensures
        r.name == req.name,
        r.host@ == local_host_spec(config.local_host_raw@, config.port),
        r.role == UserRole::User,
{
    NewUser { name: req.name.clone(), host: config.local_host(), role: UserRole::User }
}

/// Whether `r` is what hashing came to, where the hasher answered
/// `outcome`: its hash, or an internal error that says what failed.
pub open spec fn is_hashing_result(outcome: Result<String, String>, r: ApiResult<String>) -> bool {
    match outcome {
        Ok(hash) => r == Ok::<String, ApiError>(hash),
        Err(why) => r matches Err(e) && is_refusal(e, Refusal::Internal("hashing error: "@ + why@)),
    }
}

/// What hashing a password came to, from the answer of the hasher.
pub fn hashing_result(outcome: Result<String, String>) -> (r: ApiResult<String>)
    ensures
        is_hashing_result(outcome, r),
{
    match outcome {
        Ok(hash) => Ok(hash),
        Err(why) => Err(ApiError::Internal(String::from_str("hashing error: ").concat(why.as_str()))),
    }
}

/// The hash to keep for the password of a new account: a hash under a
/// fresh salt, against which this password verifies. Where the hasher
/// fails, the error is internal and says why.
pub fn hash_password(password: &str) -> (r: ApiResult<String>)
    ensures
        r matches Ok(hash) ==> argon2_verifies(password@, hash@) == Some(true),
        r matches Err(e) ==> exists|why: Seq<char>|
            is_refusal(e, Refusal::Internal("hashing error: "@ + why)),
{
    let outcome = argon2_hash(password);
    let ghost answered = outcome;
    let r = hashing_result(outcome);
    proof {
        if let Err(why) = answered {
            assert(is_refusal(r->Err_0, Refusal::Internal("hashing error: "@ + why@)));
        }
    }
    r
}

} // verus!
