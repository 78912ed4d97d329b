//! The relay's request failures and the HTTP statuses that report them.
use vstd::prelude::*;

verus! {

/// Why a relay request had no effect.
#[derive(Clone, Copy, Debug, PartialEq, Eq, Structural)]
pub enum ApiError {
    /// The token is unknown or expired.
    Unauthorized,
    /// No wrapper is registered under the session id.
    NotFound,
    /// No chat listener is connected under the token.
    Unavailable,
    /// The producer's delivery channel refused the message.
    Internal,
}

impl ApiError {
    /// The HTTP status that reports this failure.
    pub fn status_code(&self) -> (r: u16)
        ensures
            r == match *self {
                ApiError::Unauthorized => 401u16,
                ApiError::NotFound => 404u16,
                ApiError::Unavailable => 503u16,
                ApiError::Internal => 500u16,
            },
    {
        match self {
            ApiError::Unauthorized => 401,
            ApiError::NotFound => 404,
            ApiError::Unavailable => 503,
            ApiError::Internal => 500,
        }
    }
}

/// The HTTP status of a request whose outcome is `r`: 200 on success.
pub fn status_of(r: Result<(), ApiError>) -> (code: u16)
    ensures
        code == match r {
            Ok(()) => 200u16,
            Err(ApiError::Unauthorized) => 401u16,
            Err(ApiError::NotFound) => 404u16,
            Err(ApiError::Unavailable) => 503u16,
            Err(ApiError::Internal) => 500u16,
        },
{
    match r {
        Ok(()) => 200,
        Err(e) => e.status_code(),
    }
}

} // verus!
