//! What the terminal client decides: where a choice in a list moves to,
//! which host a request is to name, and when a token is renewed.

use vstd::prelude::*;
use vstd::string::*;
use crate::text::str_eq;

pub mod context;
pub mod select;

verus! {

/// The host that a request is to name as its target: the host of what was
/// chosen, unless that is the home host of the account.
pub fn target_host_for<'a>(host: &'a str, account_host: &str) -> (r: Option<&'a str>)
    ensures
        r == (if host@ != account_host@ {
            Some(host)
        } else {
            None
        }),
{
    if !str_eq(host, account_host) {
        Some(host)
    } else {
        None
    }
}

} // verus!
