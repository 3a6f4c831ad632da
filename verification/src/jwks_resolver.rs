//! The keys of peer hosts: a cache of the key sets that peers publish.
//!
//! A key is looked up by the issuer that signed a token and the identifier
//! of the key. The cache answers from a key set that it fetched less than
//! ten minutes ago; else, and where the set lacks the key, it asks for the
//! set to be fetched. What was fetched is stored and then decides: a lookup
//! fetches at most once.

use vstd::prelude::*;
use vstd::string::*;
use crate::error::{is_refusal, ApiError, ApiResult, Refusal};
use crate::text::str_eq;
use crate::types::Timestamp;
use crate::types::auth::{JwksResponse, PublicJwk};

verus! {

/// The time, in nanoseconds, for which a fetched key set is used: ten minutes.
pub const JWKS_TTL_NANOS: i128 = 600_000_000_000;

/// A key set with the time at which it was fetched.
#[derive(Clone, Debug, PartialEq, Eq)]
pub struct CachedJwks {
    pub jwks: JwksResponse,
    pub fetched_at: Timestamp,
}

/// The key set of one issuer.
#[derive(Clone, Debug, PartialEq, Eq)]
pub struct JwksEntry {
    pub issuer: String,
    pub cached: CachedJwks,
}

/// The cache of key sets, by issuer. The last entry of an issuer counts; a
/// key set that is stored takes the place of the one it renews.
#[derive(Clone, Debug, PartialEq, Eq)]
pub struct JwksCache {
    pub entries: Vec<JwksEntry>,
}

/// What a lookup answers.
#[derive(Debug, PartialEq, Eq)]
pub enum JwksLookup {
    /// The key, from a key set that is fresh.
    Found(PublicJwk),
    /// The key set is to be fetched from this URL.
    Fetch { url: String },
}

/// The entry that counts for `issuer`: the last one in `entries`.
pub open spec fn cached_for(entries: Seq<JwksEntry>, issuer: Seq<char>) -> Option<CachedJwks>
    decreases entries.len(),
{
    if entries.len() == 0 {
        None
    } else if entries.last().issuer@ == issuer {
        Some(entries.last().cached)
    } else {
        cached_for(entries.drop_last(), issuer)
    }
}

/// The first key of `keys` with the identifier `kid`.
pub open spec fn key_in(keys: Seq<PublicJwk>, kid: Seq<char>) -> Option<PublicJwk>
    decreases keys.len(),
{
    if keys.len() == 0 {
        None
    } else if keys[0].kid@ == kid {
        Some(keys[0])
    } else {
        key_in(keys.drop_first(), kid)
    }
}

/// Whether a key set fetched at `fetched_at` is still used at `now`.
pub open spec fn is_fresh(fetched_at: Timestamp, now: Timestamp) -> bool {
    now - fetched_at < JWKS_TTL_NANOS
}

/// The URL of the key set of `issuer`.
pub open spec fn jwks_url(issuer: Seq<char>) -> Seq<char> {
    issuer + "/.well-known/jwks.json"@
}

/// The key that the cache answers with at `now`, if it answers.
pub open spec fn cached_key(
    entries: Seq<JwksEntry>,
    issuer: Seq<char>,
    kid: Seq<char>,
    now: Timestamp,
) -> Option<PublicJwk> {
    match cached_for(entries, issuer) {
        Some(cached) => if is_fresh(cached.fetched_at, now) {
            key_in(cached.jwks.keys@, kid)
        } else {
            None
        },
        None => None,
    }
}

/// The first key of `keys` with the identifier `kid`.
pub fn find_key(keys: &Vec<PublicJwk>, kid: &str) -> (r: Option<PublicJwk>)
    ensures
        r == key_in(keys@, kid@),
{
    let mut i: usize = 0;
    assert(keys@.skip(0) =~= keys@);
    while i < keys.len()
        invariant
            i <= keys.len(),
            key_in(keys@, kid@) == key_in(keys@.skip(i as int), kid@),
        decreases keys.len() - i,
    {
        if str_eq(keys[i].kid.as_str(), kid) {
            return Some(keys[i].clone());
        }
        assert(keys@.skip(i as int).drop_first() =~= keys@.skip(i as int + 1));
        i = i + 1;
    }
    None
}

/// Putting an entry in the place of the last entry of its issuer makes it
/// the one that counts for the issuer, and touches no other issuer.
pub proof fn lemma_cached_for_update(
    entries: Seq<JwksEntry>,
    i: int,
    entry: JwksEntry,
    issuer: Seq<char>,
)
    requires
        0 <= i < entries.len(),
        entries[i].issuer@ == entry.issuer@,
        forall|j: int| i < j < entries.len() ==> (#[trigger] entries[j]).issuer@ != entry.issuer@,
    ensures
        cached_for(entries.update(i, entry), issuer) == (if issuer == entry.issuer@ {
            Some(entry.cached)
        } else {
            cached_for(entries, issuer)
        }),
    decreases entries.len(),
{
    let renewed = entries.update(i, entry);
    if i == entries.len() - 1 {
        assert(renewed.drop_last() =~= entries.drop_last());
    } else {
        assert(renewed.drop_last() =~= entries.drop_last().update(i, entry));
        assert(renewed.last() == entries.last());
        if entries.last().issuer@ != issuer {
            lemma_cached_for_update(entries.drop_last(), i, entry, issuer);
        }
    }
}

impl JwksCache {
    /// The cache without entries.
    pub fn new() -> (r: Self)
        ensures
            r.entries@.len() == 0,
    {
        JwksCache { entries: Vec::new() }
    }

    /// The position of the entry that counts for `issuer`: the last one.
    fn position(&self, issuer: &str) -> (r: Option<usize>)
        ensures
            match r {
                Some(i) => {
                    &&& i < self.entries@.len()
                    &&& self.entries@[i as int].issuer@ == issuer@
                    &&& cached_for(self.entries@, issuer@) == Some(self.entries@[i as int].cached)
                    &&& forall|j: int|
                        i < j < self.entries@.len() ==> (#[trigger] self.entries@[j]).issuer@
                            != issuer@
                },
                None => cached_for(self.entries@, issuer@).is_none(),
            },
    {
        let mut i: usize = self.entries.len();
        assert(self.entries@.take(i as int) =~= self.entries@);
        while i > 0
            invariant
                i <= self.entries.len(),
                cached_for(self.entries@, issuer@) == cached_for(
                    self.entries@.take(i as int),
                    issuer@,
                ),
                forall|j: int|
                    i <= j < self.entries@.len() ==> (#[trigger] self.entries@[j]).issuer@
                        != issuer@,
            decreases i,
        {
            if str_eq(self.entries[i - 1].issuer.as_str(), issuer) {
                return Some(i - 1);
            }
            assert(self.entries@.take(i as int).drop_last() =~= self.entries@.take(i as int - 1));
            i = i - 1;
        }
        None
    }

    /// Looks the key `kid` of `issuer` up at the time `now`.
    pub fn lookup(&self, issuer: &str, kid: &str, now: Timestamp) -> (r: JwksLookup)
        ensures
            match cached_key(self.entries@, issuer@, kid@, now) {
                Some(key) => r == JwksLookup::Found(key),
                None => r matches JwksLookup::Fetch { url } && url@ == jwks_url(issuer@),
            },
    {
        match self.position(issuer) {
            Some(i) => {
                let cached = &self.entries[i].cached;
                let fresh = if now < cached.fetched_at {
                    true
                } else if cached.fetched_at <= i128::MAX - JWKS_TTL_NANOS {
                    now < cached.fetched_at + JWKS_TTL_NANOS
                } else {
                    true
                };
                if fresh {
                    match find_key(&cached.jwks.keys, kid) {
                        Some(key) => {
                            return JwksLookup::Found(key);
                        },
                        None => {},
                    }
                }
            },
            None => {},
        }
        JwksLookup::Fetch { url: String::from_str(issuer).concat("/.well-known/jwks.json") }
    }

    /// Stores the key set that was fetched for `issuer` at `now`. It is the
    /// one that counts for the issuer from now on, in the place of the one
    /// that counted before, so that the cache grows with the issuers only;
    /// no other issuer is touched.
    pub fn store(&mut self, issuer: String, jwks: JwksResponse, now: Timestamp)
        ensures
            cached_for(final(self).entries@, issuer@) == Some(
                CachedJwks { jwks, fetched_at: now },
            ),
            forall|other: Seq<char>|
                other != issuer@ ==> cached_for(final(self).entries@, other) == cached_for(
                    old(self).entries@,
                    other,
                ),
            final(self).entries@.len() == (if cached_for(old(self).entries@, issuer@).is_some() {
                old(self).entries@.len()
            } else {
                old(self).entries@.len() + 1
            }),
    {
        let ghost before = self.entries@;
        let place = self.position(issuer.as_str());
        let entry = JwksEntry { issuer, cached: CachedJwks { jwks, fetched_at: now } };
        match place {
            Some(i) => {
                proof {
                    assert forall|other: Seq<char>|
                        cached_for(before.update(i as int, entry), other) == (if other
                            == entry.issuer@ {
                            Some(entry.cached)
                        } else {
                            cached_for(before, other)
                        }) by {
                        lemma_cached_for_update(before, i as int, entry, other);
                    }
                }
                self.entries.set(i, entry);
            },
            None => {
                self.entries.push(entry);
                assert(self.entries@.drop_last() =~= before);
            },
        }
    }

    /// The key `kid` of `issuer` once its key set was fetched and stored.
    /// A set that lacks the key is not fetched again: the key is unknown.
    pub fn resolve_fetched(&self, issuer: &str, kid: &str) -> (r: ApiResult<PublicJwk>)
        ensures
            match cached_for(self.entries@, issuer@) {
                Some(cached) => match key_in(cached.jwks.keys@, kid@) {
                    Some(key) => r == Ok::<PublicJwk, ApiError>(key),
                    None => r matches Err(e) && is_refusal(
                        e,
                        Refusal::AuthError("Unknown signing key"@),
                    ),
                },
                None => r matches Err(e) && is_refusal(e, Refusal::AuthError("Unknown signing key"@)),
            },
    {
        match self.position(issuer) {
            Some(i) => match find_key(&self.entries[i].cached.jwks.keys, kid) {
                Some(key) => Ok(key),
                None => Err(ApiError::AuthError(String::from_str("Unknown signing key"))),
            },
            None => Err(ApiError::AuthError(String::from_str("Unknown signing key"))),
        }
    }
}

} // verus!
