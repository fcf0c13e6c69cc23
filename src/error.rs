use vstd::prelude::*;

verus! {

/// Failure of the two-step authentication exchange.
#[derive(Debug, PartialEq, Eq, Structural)]
pub enum AuthError {
    /// The cloud login endpoint answered with a status outside 200..=299.
    CloudLoginFailed { status: u16 },
    /// The cloud login answer carried no usable `session_id`.
    MalformedResponse,
    /// The token issuance endpoint answered with a status outside 200..=299.
    TokenIssuanceFailed { status: u16 },
    /// No answer could be had from the network.
    Transport,
}

/// Failure of a fetch from the device.
#[derive(Debug, PartialEq, Eq, Structural)]
pub enum ApiError {
    /// No answer could be had from the network.
    Transport,
    /// The device refused the bearer token (status 401).
    Unauthorized,
    /// The device answered with another status outside 200..=299.
    Status { status: u16 },
    /// The body did not have the expected shape.
    Decode,
    /// No token could be obtained to make the request with.
    Auth(AuthError),
}

} // verus!
