//! The error kinds that the authentication core can produce, and the mapping
//! from each kind to the status code and outward message of the boundary.
//!
//! Many distinct internal failures collapse to one outward signal on purpose:
//! a caller must not learn whether an email exists or whether a password or a
//! token was the failure point.

use vstd::prelude::*;

verus! {

/// An error of the authentication core.
///
/// `TooManyRequests` carries the retry-after hint in seconds; the boundary
/// layer renders it into a message.
#[derive(Debug)]
pub enum AppError {
    /// Bad credentials, a missing, invalid or expired token, or a login for a
    /// nonexistent account: deliberately indistinguishable to the caller.
    Unauthorized,
    /// A profile lookup for a token whose subject no longer exists.
    NotFound,
    /// Malformed input, a duplicate registration, or a password login against
    /// an OAuth-only account.
    BadRequest(String),
    /// The rate limit was exceeded; the payload is the retry-after hint in
    /// seconds.
    TooManyRequests(u64),
    /// A token could not be signed or failed verification.
    Jwt(String),
    /// An internal cryptographic failure, surfaced opaquely.
    Internal(String),
}

impl AppError {
    /// The HTTP status code that the boundary reports for this error.
    pub open spec fn status_code_spec(&self) -> u16 {
        match self {
            AppError::Unauthorized => 401,
            AppError::NotFound => 404,
            AppError::BadRequest(_) => 400,
            AppError::TooManyRequests(_) => 429,
            AppError::Jwt(_) => 401,
            AppError::Internal(_) => 500,
        }
    }

    /// The outward message for this error. Detail is kept only where the
    /// kind itself is already outward (bad request payloads); token and
    /// internal failures collapse to generic text, never leaking
    /// cryptographic detail.
    pub open spec fn message_spec(&self) -> Seq<char> {
        match self {
            AppError::Unauthorized => "Unauthorized"@,
            AppError::NotFound => "Resource not found"@,
            AppError::BadRequest(msg) => msg@,
            AppError::TooManyRequests(_) => "Too many requests"@,
            AppError::Jwt(_) => "Invalid token"@,
            AppError::Internal(_) => "Internal server error"@,
        }
    }

    pub fn status_code(&self) -> (code: u16)
        ensures
            code == self.status_code_spec(),
    {
        match self {
            AppError::Unauthorized => 401,
            AppError::NotFound => 404,
            AppError::BadRequest(_) => 400,
            AppError::TooManyRequests(_) => 429,
            AppError::Jwt(_) => 401,
            AppError::Internal(_) => 500,
        }
    }

    pub fn message(&self) -> (msg: String)
        ensures
            msg@ == self.message_spec(),
    {
        match self {
            AppError::Unauthorized => "Unauthorized".to_owned(),
            AppError::NotFound => "Resource not found".to_owned(),
            AppError::BadRequest(m) => m.clone(),
            AppError::TooManyRequests(_) => "Too many requests".to_owned(),
            AppError::Jwt(_) => "Invalid token".to_owned(),
            AppError::Internal(_) => "Internal server error".to_owned(),
        }
    }
}

} // verus!
