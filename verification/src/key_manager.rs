//! The signing key of a server instance and the public key it publishes.
//!
//! The private key is kept as a PKCS#8 document, the public key as an SPKI
//! document. Reading and writing the two files is left to the caller.

use vstd::prelude::*;
use vstd::string::*;
use crate::error::{is_refusal, ApiError, ApiResult, Refusal};
use crate::outside::{
    base64url_nopad, generate_keypair, pkcs8_public_key, signing_key_public, spki_public_key,
    verifying_key_raw, GeneratedKeypair, KeypairFailure,
};
use crate::types::auth::PublicJwk;

verus! {

/// The identifier under which the key is published.
pub open spec fn key_id() -> Seq<char> {
    "primary"@
}

/// The signing key of a server instance, with what it publishes.
pub struct KeyManager {
    /// The private key, as a PKCS#8 document.
    pub private_key_der: Vec<u8>,
    /// The public key, as its 32 raw bytes.
    pub public_key_raw: Vec<u8>,
    /// The public key as it is published.
    pub public_jwk: PublicJwk,
    /// The directory that holds the key files.
    pub path: String,
}

/// The two key documents, as they are written to the key directory.
pub struct KeyFiles {
    pub private_der: Vec<u8>,
    pub public_der: Vec<u8>,
}

/// Where the key of an instance comes from.
#[derive(Clone, Copy, Debug, PartialEq, Eq, Structural)]
pub enum KeySource {
    /// Both files are there: the key is loaded.
    Load,
    /// A file is missing: a key is generated and both files are written.
    Generate,
}

/// The published form of the raw public key `raw`.
pub open spec fn is_published_key(jwk: PublicJwk, raw: Seq<u8>) -> bool {
    &&& jwk.kty@ == "OKP"@
    &&& jwk.crv@ == "Ed25519"@
    &&& jwk.alg@ == "EdDSA"@
    &&& jwk.kid@ == key_id()
    &&& jwk.use_@ == "sig"@
    &&& jwk.x@ == base64url_nopad(raw)
}

/// What loading the two documents answers: the first document that cannot
/// be read decides, the private one first; a public key that is not the one
/// of the private key is refused; else the manager holds the key.
pub open spec fn is_loaded(
    private_der: Seq<u8>,
    public_der: Seq<u8>,
    path: String,
    r: ApiResult<KeyManager>,
) -> bool {
    match pkcs8_public_key(private_der) {
        Err(why) => r matches Err(e) && is_refusal(
            e,
            Refusal::Internal("invalid private key (expected PKCS#8 DER): "@ + why),
        ),
        Ok(derived) => match spki_public_key(public_der) {
            Err(why) => r matches Err(e) && is_refusal(
                e,
                Refusal::Internal("invalid public key (expected SPKI DER): "@ + why),
            ),
            Ok(loaded) => if derived != loaded {
                r matches Err(e) && is_refusal(
                    e,
                    Refusal::Internal("public key does not match private key"@),
                )
            } else {
                r matches Ok(manager) && manager.private_key_der@ == private_der
                    && manager.public_key_raw@ == loaded && manager.path == path
                    && is_published_key(manager.public_jwk, loaded)
            },
        },
    }
}

/// The text of the error of a key pair that could not be written out.
pub open spec fn encoding_failure_text(failure: KeypairFailure) -> Seq<char> {
    match failure {
        KeypairFailure::PrivateKey(why) => "failed to encode private key (pkcs8): "@ + why@,
        KeypairFailure::PublicKey(why) => "failed to encode public key (spki): "@ + why@,
    }
}

/// Whether the two byte strings are equal.
pub fn bytes_eq(a: &Vec<u8>, b: &Vec<u8>) -> (r: bool)
    ensures
        r == (a@ == b@),
{
    if a.len() != b.len() {
        return false;
    }
    let mut i: usize = 0;
    while i < a.len()
        invariant
            a.len() == b.len(),
            i <= a.len(),
            forall|j: int| 0 <= j < i ==> a@[j] == b@[j],
        decreases a.len() - i,
    {
        if a[i] != b[i] {
            return false;
        }
        i = i + 1;
    }
    assert(a@ =~= b@);
    true
}

impl KeyManager {
    /// The name of the file that holds the private key.
    pub fn private_file_name() -> (r: &'static str)
        ensures
            r@ == "private_ed25519.der"@,
    {
        "private_ed25519.der"
    }

    /// The name of the file that holds the public key.
    pub fn public_file_name() -> (r: &'static str)
        ensures
            r@ == "public_ed25519.der"@,
    {
        "public_ed25519.der"
    }

    /// Where the key comes from, given which of the two files exist.
    pub fn source(private_exists: bool, public_exists: bool) -> (r: KeySource)
        ensures
            r == (if private_exists && public_exists {
                KeySource::Load
            } else {
                KeySource::Generate
            }),
    {
        if private_exists && public_exists {
            KeySource::Load
        } else {
            KeySource::Generate
        }
    }

    /// Loads the key from the contents of its two files.
    pub fn load(private_der: Vec<u8>, public_der: Vec<u8>, path: String) -> (r: ApiResult<Self>)
        ensures
            is_loaded(private_der@, public_der@, path, r),
    {
        let derived_pub = match signing_key_public(private_der.as_slice()) {
            Ok(key) => key,
            Err(why) => {
                return Err(
                    ApiError::Internal(
                        String::from_str("invalid private key (expected PKCS#8 DER): ").concat(
                            why.as_str(),
                        ),
                    ),
                );
            },
        };
        let loaded_pub = match verifying_key_raw(public_der.as_slice()) {
            Ok(key) => key,
            Err(why) => {
                return Err(
                    ApiError::Internal(
                        String::from_str("invalid public key (expected SPKI DER): ").concat(
                            why.as_str(),
                        ),
                    ),
                );
            },
        };
        if !bytes_eq(&derived_pub, &loaded_pub) {
            return Err(ApiError::Internal(String::from_str("public key does not match private key")));
        }
        let kid = String::from_str("primary");
        let public_jwk = PublicJwk::from_ed25519_bytes(loaded_pub.as_slice(), kid);
        Ok(KeyManager { private_key_der: private_der, public_key_raw: loaded_pub, public_jwk, path })
    }

    /// Generates a key for the key directory `path`. The documents to write
    /// to the two files come back with the manager, and they load again to
    /// the key that the manager holds. Where a document cannot be made, the
    /// error is internal and says which.
    pub fn generate(path: String) -> (r: ApiResult<(Self, KeyFiles)>)
        ensures
            match r {
                Ok((manager, files)) => {
                    &&& manager.path == path
                    &&& manager.private_key_der@ == files.private_der@
                    &&& manager.public_key_raw@.len() == 32
                    &&& is_published_key(manager.public_jwk, manager.public_key_raw@)
                    &&& pkcs8_public_key(files.private_der@) == Ok::<Seq<u8>, Seq<char>>(
                        manager.public_key_raw@,
                    )
                    &&& spki_public_key(files.public_der@) == Ok::<Seq<u8>, Seq<char>>(
                        manager.public_key_raw@,
                    )
                },
                Err(e) => exists|failure: KeypairFailure|
                    is_refusal(e, Refusal::Internal(#[trigger] encoding_failure_text(failure))),
            },
    {
        let outcome = generate_keypair();
        let ghost answered = outcome;
        let r = Self::from_generated(outcome, path);
        proof {
            if let Err(failure) = answered {
                assert(is_refusal(r->Err_0, Refusal::Internal(encoding_failure_text(failure))));
            }
        }
        r
    }

    /// The manager and the key files that a generated key pair makes, for
    /// the key directory `path`; the error of a key pair that could not be
    /// written out.
    pub fn from_generated(outcome: Result<GeneratedKeypair, KeypairFailure>, path: String) -> (r:
        ApiResult<(Self, KeyFiles)>)
        ensures
            match outcome {
                Ok(pair) => {
                    &&& r matches Ok((manager, files))
                    &&& manager.path == path
                    &&& manager.private_key_der@ == pair.private_pkcs8@
                    &&& manager.public_key_raw@ == pair.public_raw@
                    &&& files.private_der@ == pair.private_pkcs8@
                    &&& files.public_der@ == pair.public_spki@
                    &&& is_published_key(manager.public_jwk, pair.public_raw@)
                },
                Err(failure) => r matches Err(e) && is_refusal(
                    e,
                    Refusal::Internal(encoding_failure_text(failure)),
                ),
            },
    {
        let pair = match outcome {
            Ok(pair) => pair,
            Err(KeypairFailure::PrivateKey(why)) => {
                return Err(
                    ApiError::Internal(
                        String::from_str("failed to encode private key (pkcs8): ").concat(
                            why.as_str(),
                        ),
                    ),
                );
            },
            Err(KeypairFailure::PublicKey(why)) => {
                return Err(
                    ApiError::Internal(
                        String::from_str("failed to encode public key (spki): ").concat(
                            why.as_str(),
                        ),
                    ),
                );
            },
        };
        let kid = String::from_str("primary");
        let public_jwk = PublicJwk::from_ed25519_bytes(pair.public_raw.as_slice(), kid);
        let files = KeyFiles { private_der: pair.private_pkcs8.clone(), public_der: pair.public_spki };
        Ok(
            (
                KeyManager {
                    private_key_der: pair.private_pkcs8,
                    public_key_raw: pair.public_raw,
                    public_jwk,
                    path,
                },
                files,
            ),
        )
    }
}

} // verus!
