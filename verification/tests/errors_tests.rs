use rust_crud_api::errors::ApiError;
use rust_crud_api::models::{ApiResponse, ErrorResponse};
use rust_crud_api::repository::{
    classify_lookup_error, classify_write_error, cursor_lookup_error, database_unavailable, delete_outcome,
    update_lookup_error,
};

fn parts(e: &ApiError) -> (u16, String, String) {
    let (status, body) = e.to_response();
    (status, body.error, body.message)
}

#[test]
fn error_responses_match_table() {
    assert_eq!(parts(&ApiError::Unauthorized), (401, "unauthorized".into(), "Invalid credentials".into()));
    assert_eq!(parts(&ApiError::NotFound("x".into())), (404, "not_found".into(), "x".into()));
    assert_eq!(parts(&ApiError::BadRequest("b".into())), (400, "bad_request".into(), "b".into()));
    assert_eq!(parts(&ApiError::Conflict("c".into())), (409, "conflict".into(), "c".into()));
    assert_eq!(parts(&ApiError::Internal("i".into())), (500, "internal_error".into(), "i".into()));
    assert_eq!(parts(&ApiError::RateLimited), (429, "rate_limited".into(), "Too many requests".into()));
    assert_eq!(parts(&ApiError::ServiceUnavailable("s".into())), (503, "service_unavailable".into(), "s".into()));
}

#[test]
fn error_descriptions() {
    assert_eq!(ApiError::Unauthorized.describe(), "Invalid credentials");
    assert_eq!(ApiError::NotFound("user".into()).describe(), "Resource not found: user");
    assert_eq!(ApiError::BadRequest("x".into()).describe(), "Bad request: x");
    assert_eq!(ApiError::Conflict("y".into()).describe(), "Conflict: y");
    assert_eq!(ApiError::Internal("z".into()).describe(), "Internal server error: z");
    assert_eq!(ApiError::RateLimited.describe(), "Too many requests");
    assert_eq!(ApiError::ServiceUnavailable("w".into()).describe(), "Service unavailable: w");
}

#[test]
fn response_constructors() {
    let r = ApiResponse::new(5u32);
    assert_eq!(r.data, 5);
    let e = ErrorResponse::new("code".into(), "msg".into());
    assert_eq!(e.error, "code");
    assert_eq!(e.message, "msg");
}

#[test]
fn write_errors_are_classified() {
    assert!(matches!(classify_write_error(Some("users_email_key"), "dup".into()),
        ApiError::Conflict(m) if m == "Email already exists"));
    assert!(matches!(classify_write_error(Some("users_username_key"), "dup".into()),
        ApiError::Conflict(m) if m == "Username already exists"));
    assert!(matches!(classify_write_error(Some("other_key"), "boom".into()),
        ApiError::Internal(m) if m == "boom"));
    assert!(matches!(classify_write_error(None, "io".into()), ApiError::Internal(m) if m == "io"));
}

#[test]
fn lookup_errors_are_classified() {
    // the driver's "no rows" message holds "row" but not "not"
    assert!(matches!(
        classify_lookup_error("no rows returned by a query that expected to return at least one row".into()),
        ApiError::Internal(_)));
    assert!(matches!(classify_lookup_error("row is not here".into()), ApiError::NotFound(_)));
    assert!(matches!(classify_lookup_error("connection reset".into()), ApiError::Internal(m) if m == "connection reset"));
    assert!(matches!(classify_lookup_error("row only".into()), ApiError::Internal(_)));
}

#[test]
fn delete_outcomes() {
    assert!(matches!(delete_outcome(0), Err(ApiError::NotFound(m)) if m == "User not found"));
    assert!(delete_outcome(1).is_ok());
    assert!(delete_outcome(u64::MAX).is_ok());
}

#[test]
fn database_unavailable_message() {
    assert!(matches!(database_unavailable("refused"),
        ApiError::ServiceUnavailable(m) if m == "Database error: refused"));
}

#[test]
fn failed_reads_are_missing_users() {
    assert!(matches!(update_lookup_error(), ApiError::NotFound(m) if m == "User not found"));
    assert!(matches!(cursor_lookup_error(), ApiError::NotFound(m) if m == "Cursor user not found"));
}
