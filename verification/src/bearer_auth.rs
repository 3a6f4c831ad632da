//! Bearer tokens: the claims of a decoded token are held to the rules of
//! this host. Decoding a token and checking its signature is left to the
//! caller, who hands over the claims, or nothing where the token did not
//! decode under the key of its issuer.

use vstd::prelude::*;
use vstd::string::*;
use crate::auth::{ClientAuth, FederationAuth, Principal};
use crate::config::{explicit_host_spec, ServerConfig};
use crate::error::{is_refusal, ApiError, ApiResult, Refusal};
use crate::text::{chars_of, matches_at, str_eq};
use crate::types::auth::{ClientAccessClaims, FederationClaims};
use crate::util::api_url_spec;

verus! {

/// The text `Bearer ` that opens the value of an `Authorization` header.
pub open spec fn bearer_prefix() -> Seq<char> {
    "Bearer "@
}

/// The token in the value of an `Authorization` header: what follows
/// `Bearer `. `None` where the value does not start so.
pub open spec fn bearer_token_spec(value: Seq<char>) -> Option<Seq<char>> {
    if bearer_prefix().is_prefix_of(value) {
        Some(value.skip(bearer_prefix().len() as int))
    } else {
        None
    }
}

/// Whether the audience `aud` names `server_id`.
pub open spec fn audience_contains(aud: Seq<String>, server_id: Seq<char>) -> bool {
    exists|i: int| 0 <= i < aud.len() && (#[trigger] aud[i])@ == server_id
}

/// Whether the claims of a client access token are accepted by the host
/// that calls itself `server_id`, at the time `now`: the host issued the
/// token, is in its audience, and the token has not expired.
pub open spec fn accepts_client_claims(claims: ClientAccessClaims, server_id: Seq<char>, now: i64) -> bool {
    &&& claims.iss@ == server_id
    &&& audience_contains(claims.aud@, server_id)
    &&& claims.exp > now
}

/// Whether the claims of a federation token are accepted by the host that
/// calls itself `server_id`, at the time `now`: the host is in the audience,
/// and the token has not expired.
pub open spec fn accepts_federation_claims(
    claims: FederationClaims,
    server_id: Seq<char>,
    now: i64,
) -> bool {
    &&& audience_contains(claims.aud@, server_id)
    &&& claims.exp > now
}

/// The token in the value of an `Authorization` header.
pub fn bearer_token(value: &str) -> (r: Option<&str>)
    ensures
        match r {
            Some(token) => bearer_token_spec(value@) == Some(token@),
            None => bearer_token_spec(value@).is_none(),
        },
{
    proof {
        reveal_strlit("Bearer ");
    }
    let v = chars_of(value);
    let prefix = chars_of("Bearer ");
    if matches_at(&v, 0, &prefix) {
        Some(value.substring_char(prefix.len(), v.len()))
    } else {
        None
    }
}

/// Whether the audience names `server_id`.
pub fn audience_names(aud: &Vec<String>, server_id: &str) -> (r: bool)
    ensures
        r == audience_contains(aud@, server_id@),
{
    let mut i: usize = 0;
    while i < aud.len()
        invariant
            i <= aud.len(),
            forall|j: int| 0 <= j < i ==> (#[trigger] aud@[j])@ != server_id@,
        decreases aud.len() - i,
    {
        if str_eq(aud[i].as_str(), server_id) {
            return true;
        }
        i = i + 1;
    }
    false
}

/// Holds the claims of a client access token to the rules of this host.
/// `decoded` is `None` where the token did not decode under this host's
/// key. Verification fails exactly where there are no claims, the issuer is
/// another host, the audience lacks this host, or the token has expired.
pub fn verify_client_claims(decoded: Option<ClientAccessClaims>, server_id: &str, now: i64) -> (r:
    ApiResult<ClientAuth>)
    ensures
        match decoded {
            Some(claims) => if accepts_client_claims(claims, server_id@, now) {
                r == Ok::<ClientAuth, ApiError>(ClientAuth { claims })
            } else {
                r matches Err(e) && is_refusal(e, Refusal::AuthError("Invalid or expired token"@))
            },
            None => r matches Err(e) && is_refusal(
                e,
                Refusal::AuthError("Invalid or expired token"@),
            ),
        },
{
    match decoded {
        Some(claims) => {
            if str_eq(claims.iss.as_str(), server_id) && audience_names(&claims.aud, server_id)
                && claims.exp > now {
                Ok(ClientAuth { claims })
            } else {
                Err(ApiError::AuthError(String::from_str("Invalid or expired token")))
            }
        },
        None => Err(ApiError::AuthError(String::from_str("Invalid or expired token"))),
    }
}

/// Holds the claims of a federation token to the rules of this host.
/// `decoded` is `None` where the token did not decode under the key of its
/// issuer. Verification fails exactly where there are no claims, the
/// audience lacks this host, or the token has expired.
pub fn verify_federation_claims(decoded: Option<FederationClaims>, server_id: &str, now: i64) -> (r:
    ApiResult<FederationAuth>)
    ensures
        match decoded {
            Some(claims) => if accepts_federation_claims(claims, server_id@, now) {
                r == Ok::<FederationAuth, ApiError>(FederationAuth { claims })
            } else {
                r matches Err(e) && is_refusal(e, Refusal::AuthError("Invalid or expired token"@))
            },
            None => r matches Err(e) && is_refusal(
                e,
                Refusal::AuthError("Invalid or expired token"@),
            ),
        },
{
    match decoded {
        Some(claims) => {
            if audience_names(&claims.aud, server_id) && claims.exp > now {
                Ok(FederationAuth { claims })
            } else {
                Err(ApiError::AuthError(String::from_str("Invalid or expired token")))
            }
        },
        None => Err(ApiError::AuthError(String::from_str("Invalid or expired token"))),
    }
}

impl Principal {
    /// The client that the decoded access token of a request stands for, on
    /// the host that `config` describes.
    pub fn from_client_token(decoded: Option<ClientAccessClaims>, config: &ServerConfig, now: i64) -> (r:
        ApiResult<Self>)
        ensures
            r.is_ok() <==> decoded.is_some() && accepts_client_claims(
                decoded.unwrap(),
                api_url_spec(explicit_host_spec(config.local_host_raw@, config.port)),
                now,
            ),
            r matches Ok(p) ==> p == Principal::Client(ClientAuth { claims: decoded.unwrap() }),
            r matches Err(e) ==> is_refusal(e, Refusal::AuthError("Invalid or expired token"@)),
    {
        match verify_client_claims(decoded, config.api_url().as_str(), now) {
            Ok(auth) => Ok(Principal::Client(auth)),
            Err(e) => Err(e),
        }
    }

    /// The peer that the decoded federation token of a request stands for,
    /// on the host that `config` describes.
    pub fn from_federation_token(
        decoded: Option<FederationClaims>,
        config: &ServerConfig,
        now: i64,
    ) -> (r: ApiResult<Self>)
        ensures
            r.is_ok() <==> decoded.is_some() && accepts_federation_claims(
                decoded.unwrap(),
                api_url_spec(explicit_host_spec(config.local_host_raw@, config.port)),
                now,
            ),
            r matches Ok(p) ==> p == Principal::Federation(
                FederationAuth { claims: decoded.unwrap() },
            ),
            r matches Err(e) ==> is_refusal(e, Refusal::AuthError("Invalid or expired token"@)),
    {
        match verify_federation_claims(decoded, config.api_url().as_str(), now) {
            Ok(auth) => Ok(Principal::Federation(auth)),
            Err(e) => Err(e),
        }
    }
}

/// Verification fails where the audience lacks this host, where the token
/// did not decode, and where it has expired.
pub proof fn lemma_verification_fails(
    decoded: Option<FederationClaims>,
    server_id: Seq<char>,
    now: i64,
)
    requires
        decoded.is_none() || !audience_contains(decoded.unwrap().aud@, server_id)
            || decoded.unwrap().exp <= now,
    ensures
        !(decoded.is_some() && accepts_federation_claims(decoded.unwrap(), server_id, now)),
{
}

} // verus!
