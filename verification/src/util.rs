//! Canonical forms of a host name and the URLs derived from it.
//!
//! A host is `name[:port]`; IPv6 literals are bracketed. The default port is
//! 7000: it is dropped in the short form and written out in the padded form.

use vstd::prelude::*;
use vstd::string::*;
use crate::text::{
    chars_of, ends_with, find_char, is_first_index_of, matches_at, trim_end_char,
    trim_start_matches,
};

verus! {

/// The text `:7000`.
pub open spec fn default_port_suffix() -> Seq<char> {
    ":7000"@
}

/// The text `http://`.
pub open spec fn http_scheme() -> Seq<char> {
    "http://"@
}

/// The text `https://`.
pub open spec fn https_scheme() -> Seq<char> {
    "https://"@
}

/// Whether `h` already names a port: a bracketed literal whose first `]` is
/// followed by `:`, or an unbracketed host that holds a `:`.
pub open spec fn has_explicit_port(h: Seq<char>) -> bool {
    if h.len() > 0 && h[0] == '[' {
        exists|c: int| is_first_index_of(h, ']', c) && c + 1 < h.len() && h[c + 1] == ':'
    } else {
        h.contains(':')
    }
}

/// The padded form of `h`: `h` itself when it names a port, else `h:7000`.
pub open spec fn pad_host_spec(h: Seq<char>) -> Seq<char> {
    if has_explicit_port(h) {
        h
    } else {
        h + default_port_suffix()
    }
}

/// The short form of `h`: without a trailing `:7000`.
pub open spec fn strip_default_port_spec(h: Seq<char>) -> Seq<char> {
    if default_port_suffix().is_suffix_of(h) {
        h.subrange(0, h.len() - default_port_suffix().len())
    } else {
        h
    }
}

/// The host named by an issuer URL: every leading `http://`, then every
/// leading `https://`, then every trailing `/` removed, in short form.
pub open spec fn host_from_issuer_spec(issuer: Seq<char>) -> Seq<char> {
    strip_default_port_spec(
        trim_end_char(
            trim_start_matches(trim_start_matches(issuer, http_scheme()), https_scheme()),
            '/',
        ),
    )
}

/// The base URL of the HTTP API of `h`.
pub open spec fn api_url_spec(h: Seq<char>) -> Seq<char> {
    http_scheme() + pad_host_spec(h)
}

/// The URL of the client websocket endpoint of `h`.
pub open spec fn client_ws_url_spec(h: Seq<char>) -> Seq<char> {
    "ws://"@ + pad_host_spec(h) + "/ws/client"@
}

/// The URL of the federation websocket endpoint of `h`.
pub open spec fn federation_ws_url_spec(h: Seq<char>) -> Seq<char> {
    "ws://"@ + pad_host_spec(h) + "/ws/federation"@
}

/// A host that padding leaves alone once padded: it is unbracketed, or names
/// a port, or its first `]` is its last character.
pub open spec fn pads_stably(h: Seq<char>) -> bool {
    h.len() > 0 && h[0] == '[' ==> has_explicit_port(h) || is_first_index_of(h, ']', h.len() - 1)
}

/// A padded host that reads back from an issuer URL: no scheme in front, no
/// `/` at the end.
pub open spec fn is_plain_host(p: Seq<char>) -> bool {
    &&& !http_scheme().is_prefix_of(p)
    &&& !https_scheme().is_prefix_of(p)
    &&& !(p.len() > 0 && p.last() == '/')
}

/// Pads `host` to `name:port`, appending the default port where none is named.
pub fn pad_host(host: &str) -> (r: String)
    ensures
        r@ == pad_host_spec(host@),
{
    let v = chars_of(host);
    let explicit = if v.len() > 0 && v[0] == '[' {
        match find_char(&v, ']') {
            Some(c) => {
                let b = c + 1 < v.len() && v[c + 1] == ':';
                b
            },
            None => false,
        }
    } else {
        find_char(&v, ':').is_some()
    };
    if explicit {
        String::from_str(host)
    } else {
        String::from_str(host).concat(":7000")
    }
}

/// Drops a trailing `:7000`.
pub fn strip_default_port(host: &str) -> (r: String)
    ensures
        r@ == strip_default_port_spec(host@),
{
    let v = chars_of(host);
    let suffix = chars_of(":7000");
    if ends_with(&v, &suffix) {
        String::from_str(host.substring_char(0, v.len() - suffix.len()))
    } else {
        String::from_str(host)
    }
}

/// The host that an issuer URL names, in short form.
pub fn host_from_issuer(issuer: &str) -> (r: String)
    ensures
        r@ == host_from_issuer_spec(issuer@),
{
    let v = chars_of(issuer);
    let http = chars_of("http://");
    let https = chars_of("https://");
    proof {
        reveal_strlit("http://");
        reveal_strlit("https://");
    }
    let n = v.len();
    let mut start: usize = 0;
    assert(v@.skip(0) =~= v@);
    while matches_at(&v, start, &http)
        invariant
            n == v.len(),
            start <= n,
            http@ == http_scheme(),
            http@.len() == 7,
            trim_start_matches(v@, http@) == trim_start_matches(v@.skip(start as int), http@),
        decreases n - start,
    {
        assert(v@.skip(start as int).skip(7) =~= v@.skip(start as int + 7));
        start = start + 7;
    }
    let ghost after_http = v@.skip(start as int);
    while matches_at(&v, start, &https)
        invariant
            n == v.len(),
            start <= n,
            https@ == https_scheme(),
            https@.len() == 8,
            trim_start_matches(after_http, https@) == trim_start_matches(
                v@.skip(start as int),
                https@,
            ),
        decreases n - start,
    {
        assert(v@.skip(start as int).skip(8) =~= v@.skip(start as int + 8));
        start = start + 8;
    }
    let ghost after_https = v@.skip(start as int);
    let mut end: usize = n;
    while end > start && v[end - 1] == '/'
        invariant
            n == v.len(),
            start <= end <= n,
            trim_end_char(after_https, '/') == trim_end_char(
                v@.subrange(start as int, end as int),
                '/',
            ),
        decreases end,
    {
        assert(v@.subrange(start as int, end as int).drop_last() =~= v@.subrange(
            start as int,
            end as int - 1,
        ));
        end = end - 1;
    }
    strip_default_port(issuer.substring_char(start, end))
}

/// The base URL of the HTTP API of `host`.
pub fn get_api_url(host: &str) -> (r: String)
    ensures
        r@ == api_url_spec(host@),
{
    let host_with_port = pad_host(host);
    String::from_str("http://").concat(host_with_port.as_str())
}

/// The URL of the client websocket endpoint of `host`.
pub fn get_client_ws_url(host: &str) -> (r: String)
    ensures
        r@ == client_ws_url_spec(host@),
{
    let host_with_port = pad_host(host);
    String::from_str("ws://").concat(host_with_port.as_str()).concat("/ws/client")
}

/// The URL of the federation websocket endpoint of `host`.
pub fn get_federation_ws_url(host: &str) -> (r: String)
    ensures
        r@ == federation_ws_url_spec(host@),
{
    let host_with_port = pad_host(host);
    String::from_str("ws://").concat(host_with_port.as_str()).concat("/ws/federation")
}

/// Whether two hosts are the same host: their padded forms are equal.
pub fn same_host(a: &str, b: &str) -> (r: bool)
    ensures
        r == (pad_host_spec(a@) == pad_host_spec(b@)),
{
    let x = pad_host(a);
    let y = pad_host(b);
    x == y
}

/// Padding a padded host changes nothing, exactly for the hosts that pad
/// stably. A bracketed literal without a port and with text after its `]`, or
/// without any `]`, gets the suffix again each time.
pub proof fn lemma_pad_host_idempotent(h: Seq<char>)
    ensures
        pads_stably(h) <==> pad_host_spec(pad_host_spec(h)) == pad_host_spec(h),
{
    reveal_strlit(":7000");
    let s = default_port_suffix();
    let p = pad_host_spec(h);
    if !has_explicit_port(h) {
        assert(forall|i: int| 0 <= i < h.len() ==> p[i] == h[i]);
        if h.len() > 0 && h[0] == '[' {
            if is_first_index_of(h, ']', h.len() - 1) {
                let c = h.len() - 1;
                assert(is_first_index_of(p, ']', c));
            } else {
                if has_explicit_port(p) {
                    let c = choose|c: int|
                        is_first_index_of(p, ']', c) && c + 1 < p.len() && p[c + 1] == ':';
                    assert(is_first_index_of(h, ']', c));
                }
            }
        } else {
            assert(p[h.len() as int] == s[0]);
        }
    }
}

/// A host with `:7000` appended pads to the same text as the host itself,
/// exactly when the host names no port and pads stably.
pub proof fn lemma_default_port_suffix_pads_alike(h: Seq<char>)
    ensures
        (!has_explicit_port(h) && pads_stably(h)) <==> pad_host_spec(h + default_port_suffix())
            == pad_host_spec(h),
{
    reveal_strlit(":7000");
    lemma_pad_host_idempotent(h);
}

/// What repeated prefix trimming leaves is no longer than what it was given.
pub proof fn lemma_trim_start_matches_len(s: Seq<char>, p: Seq<char>)
    ensures
        trim_start_matches(s, p).len() <= s.len(),
        p.len() > 0 && p.is_prefix_of(s) ==> trim_start_matches(s, p).len() + p.len() <= s.len(),
    decreases s.len(),
{
    if p.len() > 0 && p.is_prefix_of(s) {
        lemma_trim_start_matches_len(s.skip(p.len() as int), p);
    }
}

/// What trailing-character trimming leaves is no longer than what it was given.
pub proof fn lemma_trim_end_char_len(s: Seq<char>, ch: char)
    ensures
        trim_end_char(s, ch).len() <= s.len(),
        s.len() > 0 && s.last() == ch ==> trim_end_char(s, ch).len() < s.len(),
    decreases s.len(),
{
    if s.len() > 0 && s.last() == ch {
        lemma_trim_end_char_len(s.drop_last(), ch);
    }
}

/// Reading the host back from the API URL of `h` gives the short form of the
/// padded `h`, exactly when the padded host is plain.
pub proof fn lemma_host_from_issuer_of_api_url(h: Seq<char>)
    ensures
        is_plain_host(pad_host_spec(h)) <==> host_from_issuer_spec(api_url_spec(h))
            == strip_default_port_spec(pad_host_spec(h)),
{
    reveal_strlit(":7000");
    reveal_strlit("http://");
    reveal_strlit("https://");
    let p = pad_host_spec(h);
    let http = http_scheme();
    let https = https_scheme();
    let url = api_url_spec(h);
    assert(url.skip(7) =~= p);
    let t1 = trim_start_matches(url, http);
    let t2 = trim_start_matches(t1, https);
    let t3 = trim_end_char(t2, '/');
    lemma_trim_start_matches_len(p, http);
    lemma_trim_start_matches_len(t1, https);
    lemma_trim_end_char_len(t2, '/');
    assert(strip_default_port_spec(t3).len() <= t3.len());
    if p.len() > 0 && p.last() == '/' && default_port_suffix().is_suffix_of(p) {
        assert(p.subrange(p.len() - 5, p.len() as int)[4] == default_port_suffix()[4]);
    }
}

} // verus!
