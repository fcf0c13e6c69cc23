use vstd::prelude::*;

use crate::error::ApiError;

verus! {

/// The status code with which the device refuses a token.
pub const UNAUTHORIZED_STATUS: u16 = 401;

/// Whether an HTTP status code lies in the success class.
pub open spec fn is_success_status(status: u16) -> bool {
    200 <= status && status <= 299
}

/// What a device fetch yields, given the response status and the decoded
/// body (`None` where the body did not decode into the expected shape).
pub open spec fn fetch_outcome<T>(status: u16, body: Option<T>) -> Result<T, ApiError> {
    if !is_success_status(status) {
        if status == UNAUTHORIZED_STATUS {
            Err(ApiError::Unauthorized)
        } else {
            Err(ApiError::Status { status })
        }
    } else {
        match body {
            Some(v) => Ok(v),
            None => Err(ApiError::Decode),
        }
    }
}

/// Tells whether `status` lies in the success class.
pub fn is_success(status: u16) -> (r: bool)
    ensures
        r == is_success_status(status),
{
    200 <= status && status <= 299
}

/// Turns the status and decoded body of a device response into the result of
/// the fetch: a non-success status is an error whatever the body holds, and a
/// successful response whose body did not decode is a decode error.
pub fn classify_response<T>(status: u16, body: Option<T>) -> (r: Result<T, ApiError>)
    ensures
        r == fetch_outcome(status, body),
{
    if !is_success(status) {
        if status == UNAUTHORIZED_STATUS {
            Err(ApiError::Unauthorized)
        } else {
            Err(ApiError::Status { status })
        }
    } else {
        match body {
            Some(v) => Ok(v),
            None => Err(ApiError::Decode),
        }
    }
}

} // verus!
