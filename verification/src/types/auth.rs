//! Accounts, tokens and the claims that tokens carry.

use vstd::prelude::*;
use vstd::string::*;
use crate::outside::{
    base64url_encode, base64url_nopad, now_utc, random_bytes, unix_now, MAX_UNIX_SECONDS,
};
use crate::types::Timestamp;
use crate::types::user::{subject_spec, UserRef};

verus! {

/// Nanoseconds in a second.
pub const NANOS_PER_SECOND: i128 = 1_000_000_000;

/// Lifetime of a client access token, in seconds: one hour.
pub const ACCESS_TOKEN_LIFETIME_SECS: i64 = 3600;

/// Lifetime of a refresh token, in seconds: thirty days.
pub const REFRESH_TOKEN_LIFETIME_SECS: i64 = 2_592_000;

/// Lifetime of the federation token of a dial handshake, in seconds: five minutes.
pub const DIAL_TOKEN_LIFETIME_SECS: i64 = 300;

/// The longest token lifetime, in seconds, that can be added to any moment
/// the clock can give.
pub const MAX_LIFETIME_SECS: i64 = 4_611_686_018_427_387_904;

/// A local account: the password hash of a user of this host.
#[derive(Clone, PartialEq, Eq)]
pub struct LocalAccount {
    pub user_name: String,
    pub user_host: String,
    pub password_hash: String,
    pub created_at: Timestamp,
    pub updated_at: Timestamp,
}

#[derive(Clone, PartialEq, Eq)]
pub struct SignupRequest {
    pub name: String,
    pub password: String,
}

/// A refresh token: 256 random bits in base64url, bound to a user and a client.
#[derive(Clone, PartialEq, Eq)]
pub struct RefreshToken {
    pub token: String,
    pub user_name: String,
    pub user_host: String,
    pub client_id: String,
    pub issued_at: Timestamp,
    pub expires_at: Timestamp,
    pub revoked: bool,
}

/// The form of a token request. `username` and `password` belong to the
/// password grant, `refresh_token` to the refresh grant.
#[derive(Clone, PartialEq, Eq)]
pub struct TokenRequest {
    pub grant_type: String,
    pub username: Option<String>,
    pub password: Option<String>,
    pub refresh_token: Option<String>,
    pub scope: Option<String>,
    pub client_id: Option<String>,
}

/// The answer to a token request. `token_type` is always `Bearer`.
#[derive(Clone, PartialEq, Eq)]
pub struct TokenResponse {
    pub access_token: String,
    pub token_type: String,
    pub expires_in: i64,
    pub refresh_token: String,
    pub scope: String,
}

/// The discovery document served at `/.well-known/openid-configuration`.
#[derive(Clone, Debug, PartialEq, Eq)]
pub struct OidcDiscoveryDocument {
    pub issuer: String,
    pub jwks_uri: String,
    pub token_endpoint: String,
    pub userinfo_endpoint: String,
    pub grant_types_supported: Vec<String>,
    pub response_types_supported: Vec<String>,
    pub scopes_supported: Vec<String>,
    pub token_endpoint_auth_methods_supported: Vec<String>,
}

/// The key set served at `/.well-known/jwks.json`.
#[derive(Clone, Debug, PartialEq, Eq)]
pub struct JwksResponse {
    pub keys: Vec<PublicJwk>,
}

/// A password grant in structured form.
#[derive(Clone, Debug, PartialEq, Eq)]
pub struct AuthTokenPasswordRequest {
    pub username: String,
    pub password: String,
    pub scope: Option<String>,
    pub client_id: Option<String>,
}

/// A refresh grant in structured form.
#[derive(Clone, Debug, PartialEq, Eq)]
pub struct AuthTokenRefreshRequest {
    pub refresh_token: String,
    pub scope: Option<String>,
    pub client_id: Option<String>,
}

/// A public JSON Web Key.
#[derive(Debug, PartialEq, Eq)]
pub struct PublicJwk {
    /// Key type, `OKP` for Ed25519.
    pub kty: String,
    /// Curve, `Ed25519`.
    pub crv: String,
    /// Algorithm, `EdDSA`.
    pub alg: String,
    /// Key identifier.
    pub kid: String,
    /// Key usage, `sig` for signatures.
    pub use_: String,
    /// The raw public key in base64url.
    pub x: String,
}

/// Claims of a client access token. It is valid only on the host that issued it.
#[derive(Clone, Debug, PartialEq, Eq)]
pub struct ClientAccessClaims {
    /// Issuer: the API URL of the issuing host.
    pub iss: String,
    /// Subject: `name@host`.
    pub sub: String,
    /// Audience: the issuer alone.
    pub aud: Vec<String>,
    /// Expiry, seconds since the epoch.
    pub exp: i64,
    /// Time of issue, seconds since the epoch.
    pub iat: i64,
    /// Space-separated scopes.
    pub scope: String,
    /// The client that obtained the token.
    pub client_id: String,
}

/// Claims of a federation token. It authenticates the calling server, and
/// carries a user where the call is made on a user's behalf.
#[derive(Clone, Debug, PartialEq, Eq)]
pub struct FederationClaims {
    /// Issuer: the API URL of the calling server.
    pub iss: String,
    /// Subject: the calling server again.
    pub sub: String,
    /// Audience: the API URL of the target server.
    pub aud: Vec<String>,
    /// Expiry, seconds since the epoch.
    pub exp: i64,
    /// Time of issue, seconds since the epoch.
    pub iat: i64,
    /// The user on whose behalf the call is made, if any.
    pub user_ref: Option<UserRef>,
}

impl Clone for PublicJwk {
    fn clone(&self) -> (r: Self)
        ensures
            r == *self,
    {
        PublicJwk {
            kty: self.kty.clone(),
            crv: self.crv.clone(),
            alg: self.alg.clone(),
            kid: self.kid.clone(),
            use_: self.use_.clone(),
            x: self.x.clone(),
        }
    }
}

/// The number of random bytes in a refresh token: 256 bits.
pub const REFRESH_TOKEN_BYTES: usize = 32;

impl RefreshToken {
    /// A fresh token for `user_ref`: `REFRESH_TOKEN_BYTES` random bytes in
    /// base64url, issued now, expiring `lifetime_secs` later.
    pub fn new(user_ref: UserRef, client_id: String, lifetime_secs: i64) -> (r: Self)
        ensures
            exists|bytes: Seq<u8>|
                bytes.len() == REFRESH_TOKEN_BYTES && r.token@ == #[trigger] base64url_nopad(bytes),
            r.user_name == user_ref.name,
            r.user_host == user_ref.host,
            r.client_id == client_id,
            r.expires_at == r.issued_at + lifetime_secs * NANOS_PER_SECOND,
            !r.revoked,
    {
        Self::from_random(
            user_ref,
            client_id,
            random_bytes(REFRESH_TOKEN_BYTES),
            now_utc(),
            lifetime_secs,
        )
    }

    /// The token made of the bytes that the generator gave, issued at
    /// `now`: its text is `bytes` in base64url.
    pub fn from_random(
        user_ref: UserRef,
        client_id: String,
        bytes: Vec<u8>,
        now: Timestamp,
        lifetime_secs: i64,
    ) -> (r: Self)
        requires
            i128::MIN <= now + lifetime_secs * NANOS_PER_SECOND <= i128::MAX,
        ensures
            r.token@ == base64url_nopad(bytes@),
            r.user_name == user_ref.name,
            r.user_host == user_ref.host,
            r.client_id == client_id,
            r.issued_at == now,
            r.expires_at == now + lifetime_secs * NANOS_PER_SECOND,
            !r.revoked,
    {
        let token = base64url_encode(bytes.as_slice());
        Self::new_at(user_ref, client_id, token, now, lifetime_secs)
    }

    /// The token with text `token`, issued at `now`.
    pub fn new_at(
        user_ref: UserRef,
        client_id: String,
        token: String,
        now: Timestamp,
        lifetime_secs: i64,
    ) -> (r: Self)
        requires
            i128::MIN <= now + lifetime_secs * NANOS_PER_SECOND <= i128::MAX,
        ensures
            r == (RefreshToken {
                token: token,
                user_name: user_ref.name,
                user_host: user_ref.host,
                client_id: client_id,
                issued_at: now,
                expires_at: (now + lifetime_secs * NANOS_PER_SECOND) as i128,
                revoked: false,
            }),
    {
        let lifetime: i128 = (lifetime_secs as i128) * NANOS_PER_SECOND;
        RefreshToken {
            token,
            user_name: user_ref.name,
            user_host: user_ref.host,
            client_id,
            issued_at: now,
            expires_at: now + lifetime,
            revoked: false,
        }
    }

    /// Whether the token can still be redeemed at `now`: it is not revoked
    /// and expires later than `now`.
    pub fn is_redeemable(&self, now: Timestamp) -> (r: bool)
        ensures
            r == (!self.revoked && self.expires_at > now),
    {
        !self.revoked && self.expires_at > now
    }
}

impl PublicJwk {
    /// The published form of an Ed25519 public key.
    pub fn from_ed25519_bytes(pub_bytes: &[u8], kid: String) -> (r: Self)
        ensures
            r.kty@ == "OKP"@,
            r.crv@ == "Ed25519"@,
            r.alg@ == "EdDSA"@,
            r.kid == kid,
            r.use_@ == "sig"@,
            r.x@ == base64url_nopad(pub_bytes@),
    {
        PublicJwk {
            kty: String::from_str("OKP"),
            crv: String::from_str("Ed25519"),
            alg: String::from_str("EdDSA"),
            kid,
            use_: String::from_str("sig"),
            x: base64url_encode(pub_bytes),
        }
    }
}

/// Whether `claims` are those of an access token issued at `now` by
/// `issuer` for the user `(name, host)`.
pub open spec fn is_client_access_claims(
    claims: ClientAccessClaims,
    user: (Seq<char>, Seq<char>),
    client_id: String,
    issuer: Seq<char>,
    scope: String,
    lifetime_secs: i64,
    now: i64,
) -> bool {
    &&& claims.iss@ == issuer
    &&& claims.sub@ == subject_spec(user.0, user.1)
    &&& claims.aud@.len() == 1
    &&& claims.aud@[0]@ == issuer
    &&& claims.exp == now + lifetime_secs
    &&& claims.iat == now
    &&& claims.scope == scope
    &&& claims.client_id == client_id
}

/// Whether `claims` are those of a federation token issued at `now` by
/// `issuer` for `audience`, on behalf of `user_ref`.
pub open spec fn is_federation_claims(
    claims: FederationClaims,
    issuer: Seq<char>,
    audience: Seq<char>,
    user_ref: Option<UserRef>,
    lifetime_secs: i64,
    now: i64,
) -> bool {
    &&& claims.iss@ == issuer
    &&& claims.sub@ == issuer
    &&& claims.aud@.len() == 1
    &&& claims.aud@[0]@ == audience
    &&& claims.exp == now + lifetime_secs
    &&& claims.iat == now
    &&& claims.user_ref == user_ref
}

/// Whether `lifetime_secs` can be added to the current time.
pub open spec fn is_lifetime(lifetime_secs: i64) -> bool {
    -MAX_LIFETIME_SECS <= lifetime_secs <= MAX_LIFETIME_SECS
}

impl ClientAccessClaims {
    /// Claims issued now.
    pub fn new(
        user_ref: &UserRef,
        client_id: String,
        issuer_server_id: String,
        scope: String,
        lifetime_secs: i64,
    ) -> (r: Self)
        requires
            is_lifetime(lifetime_secs),
        ensures
            exists|now: i64|
                -MAX_UNIX_SECONDS < now < MAX_UNIX_SECONDS && is_client_access_claims(
                    r,
                    user_ref@,
                    client_id,
                    issuer_server_id@,
                    scope,
                    lifetime_secs,
                    now,
                ),
    {
        let now = unix_now();
        Self::new_at(user_ref, client_id, issuer_server_id, scope, lifetime_secs, now)
    }

    /// Claims issued at `now`.
    pub fn new_at(
        user_ref: &UserRef,
        client_id: String,
        issuer_server_id: String,
        scope: String,
        lifetime_secs: i64,
        now: i64,
    ) -> (r: Self)
        requires
            i64::MIN <= now + lifetime_secs <= i64::MAX,
        ensures
            is_client_access_claims(
                r,
                user_ref@,
                client_id,
                issuer_server_id@,
                scope,
                lifetime_secs,
                now,
            ),
    {
        let mut aud: Vec<String> = Vec::new();
        aud.push(issuer_server_id.clone());
        ClientAccessClaims {
            iss: issuer_server_id,
            sub: user_ref.as_subject(),
            aud,
            exp: now + lifetime_secs,
            iat: now,
            scope,
            client_id,
        }
    }
}

impl FederationClaims {
    /// Claims that authenticate the calling server alone, issued now.
    pub fn new_server_only(
        issuer_server_id: String,
        audience_server_id: String,
        lifetime_secs: i64,
    ) -> (r: Self)
        requires
            is_lifetime(lifetime_secs),
        ensures
            exists|now: i64|
                -MAX_UNIX_SECONDS < now < MAX_UNIX_SECONDS && is_federation_claims(
                    r,
                    issuer_server_id@,
                    audience_server_id@,
                    None,
                    lifetime_secs,
                    now,
                ),
    {
        let now = unix_now();
        Self::new_at(issuer_server_id, audience_server_id, None, lifetime_secs, now)
    }

    /// Claims made on behalf of `user_ref`, issued now.
    pub fn new_delegated(
        issuer_server_id: String,
        audience_server_id: String,
        user_ref: UserRef,
        lifetime_secs: i64,
    ) -> (r: Self)
        requires
            is_lifetime(lifetime_secs),
        ensures
            exists|now: i64|
                -MAX_UNIX_SECONDS < now < MAX_UNIX_SECONDS && is_federation_claims(
                    r,
                    issuer_server_id@,
                    audience_server_id@,
                    Some(user_ref),
                    lifetime_secs,
                    now,
                ),
    {
        let now = unix_now();
        Self::new_at(issuer_server_id, audience_server_id, Some(user_ref), lifetime_secs, now)
    }

    /// Claims issued at `now`, with or without a user.
    pub fn new_at(
        issuer_server_id: String,
        audience_server_id: String,
        user_ref: Option<UserRef>,
        lifetime_secs: i64,
        now: i64,
    ) -> (r: Self)
        requires
            i64::MIN <= now + lifetime_secs <= i64::MAX,
        ensures
            is_federation_claims(
                r,
                issuer_server_id@,
                audience_server_id@,
                user_ref,
                lifetime_secs,
                now,
            ),
    {
        let mut aud: Vec<String> = Vec::new();
        aud.push(audience_server_id);
        FederationClaims {
            iss: issuer_server_id.clone(),
            sub: issuer_server_id,
            aud,
            exp: now + lifetime_secs,
            iat: now,
            user_ref,
        }
    }
}

} // verus!
