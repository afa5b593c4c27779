//! Request and response bodies, and the stored user.

use vstd::prelude::*;

verus! {

/// Credentials sent to log in.
#[derive(Debug)]
pub struct LoginRequest {
    pub email: String,
    pub password: String,
}

/// A signed access token and how long it stays valid (seconds).
#[derive(Debug)]
pub struct LoginResponse {
    pub token: String,
    pub token_type: String,
    pub expires_in: u64,
}

/// The claims carried by an access token: subject (e-mail), user id,
/// issue and expiry times (seconds since the epoch) and issuer.
#[derive(Debug)]
pub struct TokenClaims {
    pub sub: String,
    pub user_id: String,
    pub iat: i64,
    pub exp: i64,
    pub iss: String,
}

/// A stored user. Ids are UUIDs, held as their 128-bit value; times are
/// microseconds since the epoch.
#[derive(Debug)]
pub struct User {
    pub id: u128,
    pub email: String,
    pub username: String,
    pub password_hash: String,
    pub created_at: i64,
    pub updated_at: i64,
}

/// A user as shown to clients: everything but the password hash.
#[derive(Debug)]
pub struct UserResponse {
    pub id: u128,
    pub email: String,
    pub username: String,
    pub created_at: i64,
    pub updated_at: i64,
}

/// Body of a request that creates a user.
#[derive(Debug)]
pub struct CreateUserRequest {
    pub email: String,
    pub username: String,
    pub password: String,
}

/// Body of a request that changes a user; absent fields stay as they are.
#[derive(Debug)]
pub struct UpdateUserRequest {
    pub email: Option<String>,
    pub username: Option<String>,
    pub password: Option<String>,
}

/// One page of users, and the cursor of the next page when there is one.
#[derive(Debug)]
pub struct PaginatedUsersResponse {
    pub data: Vec<UserResponse>,
    pub next_cursor: Option<String>,
    pub has_more: bool,
}

/// The envelope of every successful response body.
#[derive(Debug)]
pub struct ApiResponse<T> {
    pub data: T,
}

/// The body of every error response.
#[derive(Debug)]
pub struct ErrorResponse {
    pub error: String,
    pub message: String,
}

/// The body of the health check.
#[derive(Debug)]
pub struct HealthResponse {
    pub status: String,
    pub database: String,
    pub redis: String,
}

/// The body of the request counter endpoint.
#[derive(Debug)]
pub struct MetricsResponse {
    pub requests_total: usize,
}

/// Query parameters of a listing: where to continue and how many users.
#[derive(Debug)]
pub struct ListQuery {
    pub cursor: Option<String>,
    pub limit: Option<i64>,
}

impl Default for ListQuery {
    /// The first page of twenty users.
    fn default() -> (r: Self)
        ensures
            r.cursor is None,
            r.limit == Some(20i64),
    {
        ListQuery { cursor: None, limit: Some(20) }
    }
}

impl ListQuery {
    /// The page size asked for, twenty when none is given.
    pub fn limit_or_default(&self) -> (r: i64)
        ensures
            r == (match self.limit { Some(l) => l, None => 20 }),
    {
        match self.limit {
            Some(l) => l,
            None => 20,
        }
    }
}

impl<T> ApiResponse<T> {
    /// Wraps `data`.
    pub fn new(data: T) -> (r: Self)
        ensures
            r.data == data,
    {
        ApiResponse { data }
    }
}

impl ErrorResponse {
    /// An error body with the given code and message.
    pub fn new(error: String, message: String) -> (r: Self)
        ensures
            r.error == error,
            r.message == message,
    {
        ErrorResponse { error, message }
    }
}

} // verus!
