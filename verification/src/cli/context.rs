//! The access token of the account in use.

use vstd::prelude::*;

verus! {

/// The seconds before its expiry at which a token is renewed.
pub const REFRESH_MARGIN_SECS: i64 = 60;

/// Whether the access token that is kept can still be used at `now`: there
/// is one, and it expires later than a minute from now, or has no expiry.
pub open spec fn is_usable(has_token: bool, expires_at: Option<i64>, now: i64) -> bool {
    has_token && match expires_at {
        Some(at) => at > now + REFRESH_MARGIN_SECS,
        None => true,
    }
}

/// Whether the access token must be renewed with the refresh token before
/// the next request.
pub fn needs_refresh(has_token: bool, expires_at: Option<i64>, now: i64) -> (r: bool)
    ensures
        r == !is_usable(has_token, expires_at, now),
{
    if !has_token {
        return true;
    }
    match expires_at {
        Some(at) => {
            if now <= i64::MAX - REFRESH_MARGIN_SECS {
                !(at > now + REFRESH_MARGIN_SECS)
            } else {
                true
            }
        },
        None => false,
    }
}

/// The expiry of a token that was granted at `now` for `expires_in` seconds.
pub fn expiry(now: i64, expires_in: i64) -> (r: i64)
    requires
        i64::MIN <= now + expires_in <= i64::MAX,
    ensures
        r == now + expires_in,
{
    now + expires_in
}

} // verus!
