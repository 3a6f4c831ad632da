//! The calls that leave this library: clock, randomness and encodings from
//! other crates. Each contract here is taken on trust from the crate named
//! in its comment; everything else in the library is proved from them.

use vstd::prelude::*;
use crate::types::{Timestamp, Uuid};

verus! {

/// The sending half of an unbounded channel of `tokio`.
#[verifier::external_type_specification]
#[verifier::external_body]
#[verifier::reject_recursive_types(T)]
pub struct ExUnboundedSender<T>(tokio::sync::mpsc::UnboundedSender<T>);

/// The sending half of a single-use channel of `tokio`.
#[verifier::external_type_specification]
#[verifier::external_body]
#[verifier::reject_recursive_types(T)]
pub struct ExOneshotSender<T>(tokio::sync::oneshot::Sender<T>);

/// The largest distance, in seconds, between the Unix epoch and a moment
/// that the `time` crate can hold: it keeps years within ±999,999.
pub const MAX_UNIX_SECONDS: i64 = 35_184_372_088_832;

/// Text of `bytes` in the URL-safe base64 alphabet without padding, as the
/// `base64` crate writes it.
pub uninterp spec fn base64url_nopad(bytes: Seq<u8>) -> Seq<char>;

/// What `argon2` answers when `password` is verified against the PHC string
/// `hash` with the default parameters: `None` where `hash` is no PHC string,
/// else whether the password matches.
pub uninterp spec fn argon2_verifies(password: Seq<char>, hash: Seq<char>) -> Option<bool>;

/// The raw Ed25519 public key that belongs to the private key in the PKCS#8
/// document `der`, as `ed25519-dalek` derives it; the text of the crate's
/// error where `der` is no such document.
pub uninterp spec fn pkcs8_public_key(der: Seq<u8>) -> Result<Seq<u8>, Seq<char>>;

/// The raw Ed25519 public key in the SPKI document `der`, as `ed25519-dalek`
/// reads it; the text of the crate's error where `der` is no such document.
pub uninterp spec fn spki_public_key(der: Seq<u8>) -> Result<Seq<u8>, Seq<char>>;

/// A fresh Ed25519 key pair in the forms in which it is kept and used.
pub struct GeneratedKeypair {
    /// The private key as a PKCS#8 document.
    pub private_pkcs8: Vec<u8>,
    /// The public key as an SPKI document.
    pub public_spki: Vec<u8>,
    /// The public key as its 32 raw bytes.
    pub public_raw: Vec<u8>,
}

/// The document of a fresh key pair that could not be written, with the
/// text of the error.
pub enum KeypairFailure {
    /// The private key, as a PKCS#8 document.
    PrivateKey(String),
    /// The public key, as an SPKI document.
    PublicKey(String),
}

/// `uuid::Uuid::new_v4`, as its `u128` value: a fresh random identifier.
/// Nothing is claimed of the value. The crate stops the program where the
/// operating system gives no random bytes.
#[verifier::external_body]
pub(crate) fn fresh_uuid() -> (id: Uuid) {
    uuid::Uuid::new_v4().as_u128()
}

/// `time::OffsetDateTime::now_utc`, read with `unix_timestamp`: the current
/// time in whole seconds since the Unix epoch. The crate holds no moment
/// further from the epoch than `MAX_UNIX_SECONDS`.
#[verifier::external_body]
pub(crate) fn unix_now() -> (secs: i64)
    ensures
        -MAX_UNIX_SECONDS < secs < MAX_UNIX_SECONDS,
{
    time::OffsetDateTime::now_utc().unix_timestamp()
}

/// `time::OffsetDateTime::now_utc`, read with `unix_timestamp_nanos`: the
/// current time in nanoseconds since the Unix epoch, within the same bound
/// as `unix_now`.
#[verifier::external_body]
pub(crate) fn now_utc() -> (nanos: Timestamp)
    ensures
        -MAX_UNIX_SECONDS * 1_000_000_000 < nanos < MAX_UNIX_SECONDS * 1_000_000_000,
{
    time::OffsetDateTime::now_utc().unix_timestamp_nanos()
}

/// `rand::rngs::OsRng` through `RngCore::fill_bytes`: `len` bytes from the
/// operating system's generator. Nothing is claimed of the bytes but their
/// number. The call stops the program where the operating system gives no
/// random bytes.
#[verifier::external_body]
pub(crate) fn random_bytes(len: usize) -> (r: Vec<u8>)
    ensures
        r@.len() == len,
{
    let mut bytes = vec![0u8; len];
    rand::RngCore::fill_bytes(&mut rand::rngs::OsRng, &mut bytes);
    bytes
}

/// `base64::Engine::encode` on `URL_SAFE_NO_PAD`: the text is a function of
/// the bytes alone.
#[verifier::external_body]
pub(crate) fn base64url_encode(bytes: &[u8]) -> (r: String)
    ensures
        r@ == base64url_nopad(bytes@),
{
    base64::Engine::encode(&base64::engine::general_purpose::URL_SAFE_NO_PAD, bytes)
}

/// `tokio::sync::mpsc::UnboundedSender::send`: `true` where the channel took
/// the message, `false` where its receiving half is closed or gone. Which of
/// the two happens is not claimed.
#[verifier::external_body]
pub(crate) fn channel_send<T>(sender: &tokio::sync::mpsc::UnboundedSender<T>, message: T) -> (taken:
    bool) {
    sender.send(message).is_ok()
}

/// `Clone::clone` of `tokio::sync::mpsc::UnboundedSender`: another handle on
/// the same channel. Nothing is claimed of it.
pub assume_specification<T>[ <tokio::sync::mpsc::UnboundedSender<T> as Clone>::clone ](
    sender: &tokio::sync::mpsc::UnboundedSender<T>,
) -> (handle: tokio::sync::mpsc::UnboundedSender<T>)
;

/// `tokio::sync::oneshot::Sender::send`: `true` where the receiving half was
/// still there to take the value. Which of the two happens is not claimed.
#[verifier::external_body]
pub(crate) fn oneshot_send<T>(sender: tokio::sync::oneshot::Sender<T>, value: T) -> (taken: bool) {
    sender.send(value).is_ok()
}

/// `argon2::password_hash::PasswordHash::new` and then
/// `PasswordVerifier::verify_password` on `Argon2::default()`: the answer is
/// a function of the password and the hash text alone.
#[verifier::external_body]
pub(crate) fn argon2_verify(password: &str, hash: &str) -> (r: Option<bool>)
    ensures
        r == argon2_verifies(password@, hash@),
{
    match argon2::password_hash::PasswordHash::new(hash) {
        Ok(parsed) => Some(
            argon2::PasswordVerifier::verify_password(
                &argon2::Argon2::default(),
                password.as_bytes(),
                &parsed,
            ).is_ok(),
        ),
        Err(_) => None,
    }
}

/// `argon2::password_hash::SaltString::generate` on the operating system's
/// generator and then `PasswordHasher::hash_password` on `Argon2::default()`:
/// the PHC string of `password` under a fresh salt, or the text of the
/// crate's error. The string differs from call to call; what is claimed of
/// it is what the crate's documentation shows a hash to be for: verified
/// against it, as `argon2_verify` does, the password it was made of
/// matches. The salt is drawn with `fill_bytes`, which stops the program
/// where the operating system gives no random bytes.
#[verifier::external_body]
pub(crate) fn argon2_hash(password: &str) -> (r: Result<String, String>)
    ensures
        r matches Ok(hash) ==> argon2_verifies(password@, hash@) == Some(true),
{
    let salt = argon2::password_hash::SaltString::generate(&mut rand::rngs::OsRng);
    match argon2::PasswordHasher::hash_password(
        &argon2::Argon2::default(),
        password.as_bytes(),
        &salt,
    ) {
        Ok(hash) => Ok(hash.to_string()),
        Err(e) => Err(e.to_string()),
    }
}

/// `ed25519_dalek::SigningKey` through `pkcs8::DecodePrivateKey::from_pkcs8_der`,
/// then `verifying_key` and `to_bytes`: the public key of a stored private key.
#[verifier::external_body]
pub(crate) fn signing_key_public(private_der: &[u8]) -> (r: Result<Vec<u8>, String>)
    ensures
        match r {
            Ok(key) => pkcs8_public_key(private_der@) == Ok::<Seq<u8>, Seq<char>>(key@),
            Err(e) => pkcs8_public_key(private_der@) == Err::<Seq<u8>, Seq<char>>(e@),
        },
{
    match <ed25519_dalek::SigningKey as ed25519_dalek::pkcs8::DecodePrivateKey>::from_pkcs8_der(
        private_der,
    ) {
        Ok(key) => Ok(key.verifying_key().to_bytes().to_vec()),
        Err(e) => Err(e.to_string()),
    }
}

/// `ed25519_dalek::VerifyingKey` through
/// `pkcs8::DecodePublicKey::from_public_key_der`, then `to_bytes`: the raw
/// form of a stored public key.
#[verifier::external_body]
pub(crate) fn verifying_key_raw(public_der: &[u8]) -> (r: Result<Vec<u8>, String>)
    ensures
        match r {
            Ok(key) => spki_public_key(public_der@) == Ok::<Seq<u8>, Seq<char>>(key@),
            Err(e) => spki_public_key(public_der@) == Err::<Seq<u8>, Seq<char>>(e@),
        },
{
    match <ed25519_dalek::VerifyingKey as ed25519_dalek::pkcs8::DecodePublicKey>::from_public_key_der(
        public_der,
    ) {
        Ok(key) => Ok(key.to_bytes().to_vec()),
        Err(e) => Err(e.to_string()),
    }
}

/// `ed25519_dalek::SigningKey::generate` on the operating system's
/// generator, written out with `EncodePrivateKey::to_pkcs8_der`,
/// `EncodePublicKey::to_public_key_der` and `VerifyingKey::to_bytes`; where
/// a document cannot be written, which one and the text of the crate's
/// error. The key differs from call to call. What is claimed of it: the raw
/// public key has 32 bytes, and the two documents read back to it, the
/// private one through `signing_key_public` and the public one through
/// `verifying_key_raw`. The key is drawn with `fill_bytes`, which stops the
/// program where the operating system gives no random bytes.
#[verifier::external_body]
pub(crate) fn generate_keypair() -> (r: Result<GeneratedKeypair, KeypairFailure>)
    ensures
        r matches Ok(pair) ==> {
            &&& pair.public_raw@.len() == 32
            &&& pkcs8_public_key(pair.private_pkcs8@) == Ok::<Seq<u8>, Seq<char>>(pair.public_raw@)
            &&& spki_public_key(pair.public_spki@) == Ok::<Seq<u8>, Seq<char>>(pair.public_raw@)
        },
{
    let key = ed25519_dalek::SigningKey::generate(&mut rand::rngs::OsRng);
    let public = key.verifying_key();
    let private_pkcs8 = match ed25519_dalek::pkcs8::EncodePrivateKey::to_pkcs8_der(&key) {
        Ok(document) => document.as_bytes().to_vec(),
        Err(e) => return Err(KeypairFailure::PrivateKey(e.to_string())),
    };
    let public_spki = match ed25519_dalek::pkcs8::EncodePublicKey::to_public_key_der(&public) {
        Ok(document) => document.as_bytes().to_vec(),
        Err(e) => return Err(KeypairFailure::PublicKey(e.to_string())),
    };
    Ok(GeneratedKeypair { private_pkcs8, public_spki, public_raw: public.to_bytes().to_vec() })
}

} // verus!
