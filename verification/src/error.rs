//! Error taxonomy of the auth core. Every component-level failure is
//! mapped to one of these kinds at the boundary; the HTTP layer turns
//! each kind into a status code and a message.

use vstd::prelude::*;

verus! {

/// The error kinds a handler can surface.
#[derive(Debug)]
pub enum ApiError {
    /// A store or infrastructure failure; the message stays internal.
    DatabaseError(String),
    /// The requested record does not exist.
    NotFound,
    /// Malformed input, e.g. an unhashable password or a spent reset token.
    ValidationError(String),
    /// Missing, malformed, invalid or expired token, or bad credentials.
    AuthenticationError(String),
    /// Valid identity, insufficient role.
    AuthorizationError(String),
}

impl ApiError {
    /// HTTP status code this error maps to.
    pub fn status_code(&self) -> (r: u16)
        ensures
            r == self.spec_status_code(),
    {
        match self {
            ApiError::DatabaseError(_) => 500,
            ApiError::NotFound => 404,
            ApiError::ValidationError(_) => 400,
            ApiError::AuthenticationError(_) => 401,
            ApiError::AuthorizationError(_) => 403,
        }
    }

    pub open spec fn spec_status_code(&self) -> u16 {
        match self {
            ApiError::DatabaseError(_) => 500,
            ApiError::NotFound => 404,
            ApiError::ValidationError(_) => 400,
            ApiError::AuthenticationError(_) => 401,
            ApiError::AuthorizationError(_) => 403,
        }
    }

    /// User-visible message. Database failures never expose internal
    /// detail to the caller.
    pub fn message(&self) -> (r: String)
        ensures
            r@ == self.spec_message(),
    {
        match self {
            ApiError::DatabaseError(_) => String::from_str("Database error"),
            ApiError::NotFound => String::from_str("Not found"),
            ApiError::ValidationError(msg) => msg.clone(),
            ApiError::AuthenticationError(msg) => msg.clone(),
            ApiError::AuthorizationError(msg) => msg.clone(),
        }
    }

    pub open spec fn spec_message(&self) -> Seq<char> {
        match self {
            ApiError::DatabaseError(_) => "Database error"@,
            ApiError::NotFound => "Not found"@,
            ApiError::ValidationError(msg) => msg@,
            ApiError::AuthenticationError(msg) => msg@,
            ApiError::AuthorizationError(msg) => msg@,
        }
    }
}

} // verus!
