//! Federation requests made for operations.

use vstd::prelude::*;
use crate::error::ApiError;
use crate::ws::error::{api_error_of_request_error, FederationRequestError};

verus! {

/// The time, in seconds, that an operation waits for the reply of another host.
pub const REQUEST_TIMEOUT_SECS: u64 = 10;

/// The error of an operation whose request to `host` failed.
pub fn request_failed(error: FederationRequestError, host: &str) -> (r: ApiError)
    ensures
        api_error_of_request_error(error, host@, r),
{
    error.into_api_error(host)
}

} // verus!
