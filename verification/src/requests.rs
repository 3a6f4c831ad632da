//! The requests that a client makes to the HTTP API of its home host.
//!
//! Sending is left to the caller. The library gives the URL of each request
//! and judges the status that comes back.

use vstd::prelude::*;
use vstd::string::*;

pub mod channels;
pub mod generic;
pub mod memberships;
pub mod messages;
pub mod servers;
pub mod users;

verus! {

/// The query that names the target host, where one is named.
pub open spec fn target_query(target_host: Option<&str>) -> Seq<char> {
    match target_host {
        Some(host) => "?target_host="@ + host@,
        None => Seq::empty(),
    }
}

/// Appends the query that names the target host.
pub fn append_target(url: &mut String, target_host: Option<&str>)
    ensures
        final(url)@ == old(url)@ + target_query(target_host),
{
    match target_host {
        Some(host) => {
            url.append("?target_host=");
            url.append(host);
        },
        None => {
        },
    }
}

} // verus!
