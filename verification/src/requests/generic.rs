//! What every request shares: the credentials it carries and the reading
//! of the status that answers it.

use vstd::prelude::*;
use vstd::string::*;
use crate::error::ClientError;

verus! {

/// Whether `status` reports success: it is in the range from 200 to 299.
pub open spec fn is_success(status: u16) -> bool {
    200 <= status < 300
}

/// The text of the `Authorization` header that carries `access_token`.
pub fn authorization(access_token: &str) -> (r: String)
    ensures
        r@ == "Bearer "@ + access_token@,
{
    String::from_str("Bearer ").concat(access_token)
}

/// Judges the status of a response: a status that is no success is the
/// error of the request, with the body of the response as its message.
pub fn check_status(status: u16, body: String) -> (r: Result<String, ClientError>)
    ensures
        r == (if is_success(status) {
            Ok::<String, ClientError>(body)
        } else {
            Err::<String, ClientError>(ClientError::Status(status, body))
        }),
{
    if 200 <= status && status < 300 {
        Ok(body)
    } else {
        Err(ClientError::Status(status, body))
    }
}

/// The message of a response that reports failure and whose body could not
/// be read.
pub fn unreadable_body(why: &str) -> (r: String)
    ensures
        r@ == "Failed to get error message body: "@ + why@,
{
    String::from_str("Failed to get error message body: ").concat(why)
}

} // verus!
