//! The errors of the service and how each one is answered.

use vstd::prelude::*;

use crate::models::ErrorResponse;
use crate::text::push_str;

verus! {

/// Every failure the service reports to a client.
#[derive(Debug)]
pub enum ApiError {
    Unauthorized,
    NotFound(String),
    BadRequest(String),
    Conflict(String),
    Internal(String),
    RateLimited,
    ServiceUnavailable(String),
}

/// The HTTP status answered for `e`.
pub open spec fn status_of(e: ApiError) -> u16 {
    match e {
        ApiError::Unauthorized => 401,
        ApiError::NotFound(_) => 404,
        ApiError::BadRequest(_) => 400,
        ApiError::Conflict(_) => 409,
        ApiError::Internal(_) => 500,
        ApiError::RateLimited => 429,
        ApiError::ServiceUnavailable(_) => 503,
    }
}

/// The machine-readable code in the error body for `e`.
pub open spec fn code_of(e: ApiError) -> Seq<char> {
    match e {
        ApiError::Unauthorized => "unauthorized"@,
        ApiError::NotFound(_) => "not_found"@,
        ApiError::BadRequest(_) => "bad_request"@,
        ApiError::Conflict(_) => "conflict"@,
        ApiError::Internal(_) => "internal_error"@,
        ApiError::RateLimited => "rate_limited"@,
        ApiError::ServiceUnavailable(_) => "service_unavailable"@,
    }
}

/// The message in the error body for `e`: a fixed text for the two
/// variants without one, the carried text otherwise.
pub open spec fn message_of(e: ApiError) -> Seq<char> {
    match e {
        ApiError::Unauthorized => "Invalid credentials"@,
        ApiError::NotFound(m) => m@,
        ApiError::BadRequest(m) => m@,
        ApiError::Conflict(m) => m@,
        ApiError::Internal(m) => m@,
        ApiError::RateLimited => "Too many requests"@,
        ApiError::ServiceUnavailable(m) => m@,
    }
}

/// The human-readable description of `e`.
pub open spec fn description_of(e: ApiError) -> Seq<char> {
    match e {
        ApiError::Unauthorized => "Invalid credentials"@,
        ApiError::NotFound(m) => "Resource not found: "@ + m@,
        ApiError::BadRequest(m) => "Bad request: "@ + m@,
        ApiError::Conflict(m) => "Conflict: "@ + m@,
        ApiError::Internal(m) => "Internal server error: "@ + m@,
        ApiError::RateLimited => "Too many requests"@,
        ApiError::ServiceUnavailable(m) => "Service unavailable: "@ + m@,
    }
}

impl ApiError {
    /// The HTTP status code of the answer.
    pub fn status_code(&self) -> (r: u16)
        ensures
            r == status_of(*self),
    {
        match self {
            ApiError::Unauthorized => 401,
            ApiError::NotFound(_) => 404,
            ApiError::BadRequest(_) => 400,
            ApiError::Conflict(_) => 409,
            ApiError::Internal(_) => 500,
            ApiError::RateLimited => 429,
            ApiError::ServiceUnavailable(_) => 503,
        }
    }

    /// The machine-readable error code.
    pub fn error_code(&self) -> (r: String)
        ensures
            r@ == code_of(*self),
    {
        match self {
            ApiError::Unauthorized => String::from_str("unauthorized"),
            ApiError::NotFound(_) => String::from_str("not_found"),
            ApiError::BadRequest(_) => String::from_str("bad_request"),
            ApiError::Conflict(_) => String::from_str("conflict"),
            ApiError::Internal(_) => String::from_str("internal_error"),
            ApiError::RateLimited => String::from_str("rate_limited"),
            ApiError::ServiceUnavailable(_) => String::from_str("service_unavailable"),
        }
    }

    /// The message shown to the client.
    pub fn message(&self) -> (r: String)
        ensures
            r@ == message_of(*self),
    {
        match self {
            ApiError::Unauthorized => String::from_str("Invalid credentials"),
            ApiError::NotFound(m) => m.clone(),
            ApiError::BadRequest(m) => m.clone(),
            ApiError::Conflict(m) => m.clone(),
            ApiError::Internal(m) => m.clone(),
            ApiError::RateLimited => String::from_str("Too many requests"),
            ApiError::ServiceUnavailable(m) => m.clone(),
        }
    }

    /// The status code and body of the answer to this error.
    pub fn to_response(&self) -> (r: (u16, ErrorResponse))
        ensures
            r.0 == status_of(*self),
            r.1.error@ == code_of(*self),
            r.1.message@ == message_of(*self),
    {
        (self.status_code(), ErrorResponse::new(self.error_code(), self.message()))
    }

    /// The human-readable description of this error.
    pub fn describe(&self) -> (r: String)
        ensures
            r@ == description_of(*self),
    {
        let mut s = String::new();
        match self {
            ApiError::Unauthorized => push_str(&mut s, "Invalid credentials"),
            ApiError::NotFound(m) => {
                push_str(&mut s, "Resource not found: ");
                push_str(&mut s, m.as_str());
            },
            ApiError::BadRequest(m) => {
                push_str(&mut s, "Bad request: ");
                push_str(&mut s, m.as_str());
            },
            ApiError::Conflict(m) => {
                push_str(&mut s, "Conflict: ");
                push_str(&mut s, m.as_str());
            },
            ApiError::Internal(m) => {
                push_str(&mut s, "Internal server error: ");
                push_str(&mut s, m.as_str());
            },
            ApiError::RateLimited => push_str(&mut s, "Too many requests"),
            ApiError::ServiceUnavailable(m) => {
                push_str(&mut s, "Service unavailable: ");
                push_str(&mut s, m.as_str());
            },
        }
        s
    }
}

} // verus!
