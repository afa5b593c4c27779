//! The decisions of the user store around its queries: which error a
//! failed query is, what an update writes, and what a delete found.

use vstd::prelude::*;

use crate::errors::ApiError;
use crate::models::User;
use crate::text::{contains_str, occurs_in, push_str, str_eq};

verus! {

/// The message of a conflict on the e-mail address.
pub open spec fn email_taken_message() -> Seq<char> {
    "Email already exists"@
}

/// The message of a conflict on the user name.
pub open spec fn username_taken_message() -> Seq<char> {
    "Username already exists"@
}

/// The message of a missing user.
pub open spec fn user_missing_message() -> Seq<char> {
    "User not found"@
}

/// The error of a failed insert or update: a violated unique constraint
/// on the e-mail or the user name is a conflict; anything else is an
/// internal error with the driver's message.
pub open spec fn write_error_is(r: ApiError, constraint: Option<Seq<char>>, message: Seq<char>) -> bool {
    if constraint == Some("users_email_key"@) {
        r matches ApiError::Conflict(m) && m@ == email_taken_message()
    } else if constraint == Some("users_username_key"@) {
        r matches ApiError::Conflict(m) && m@ == username_taken_message()
    } else {
        r matches ApiError::Internal(m) && m@ == message
    }
}

/// The error of a failed lookup: a driver message that mentions both
/// "row" and "not" means no row was found; anything else is internal.
pub open spec fn lookup_error_is(r: ApiError, message: Seq<char>) -> bool {
    if occurs_in(message, "row"@) && occurs_in(message, "not"@) {
        r matches ApiError::NotFound(m) && m@ == user_missing_message()
    } else {
        r matches ApiError::Internal(m) && m@ == message
    }
}

/// Classifies a failed insert or update, given the name of the violated
/// database constraint (when the failure was a database error naming one)
/// and the driver's message.
pub fn classify_write_error(constraint: Option<&str>, message: String) -> (r: ApiError)
    ensures
        write_error_is(r, match constraint { Some(c) => Some(c@), None => None }, message@),
{
    match constraint {
        Some(c) => {
            if str_eq(c, "users_email_key") {
                return ApiError::Conflict(String::from_str("Email already exists"));
            } else if str_eq(c, "users_username_key") {
                return ApiError::Conflict(String::from_str("Username already exists"));
            }
        },
        None => {},
    }
    ApiError::Internal(message)
}

/// Classifies a failed lookup of one user by the driver's message.
pub fn classify_lookup_error(message: String) -> (r: ApiError)
    ensures
        lookup_error_is(r, message@),
{
    if contains_str(message.as_str(), "row") && contains_str(message.as_str(), "not") {
        ApiError::NotFound(String::from_str("User not found"))
    } else {
        ApiError::Internal(message)
    }
}

/// The message of a listing cursor that names no stored user.
pub open spec fn cursor_user_missing_message() -> Seq<char> {
    "Cursor user not found"@
}

/// The error of a failed read of the user an update changes: whatever
/// the driver reported, the user is taken to be missing.
pub fn update_lookup_error() -> (r: ApiError)
    ensures
        r matches ApiError::NotFound(m) && m@ == user_missing_message(),
{
    ApiError::NotFound(String::from_str("User not found"))
}

/// The error of a failed read of the user a listing cursor names:
/// whatever the driver reported, the cursor's user is taken to be missing.
pub fn cursor_lookup_error() -> (r: ApiError)
    ensures
        r matches ApiError::NotFound(m) && m@ == cursor_user_missing_message(),
{
    ApiError::NotFound(String::from_str("Cursor user not found"))
}

/// What a delete found: no affected row means no such user.
pub fn delete_outcome(rows_affected: u64) -> (r: Result<(), ApiError>)
    ensures
        rows_affected == 0 ==> (r matches Err(ApiError::NotFound(m)) && m@ == user_missing_message()),
        rows_affected != 0 ==> r is Ok,
{
    if rows_affected == 0 {
        Err(ApiError::NotFound(String::from_str("User not found")))
    } else {
        Ok(())
    }
}

/// The e-mail, user name and password hash an update writes: each given
/// value replaces the stored one, the others stay.
pub fn merge_update(existing: &User, email: Option<String>, username: Option<String>, password_hash: Option<String>)
    -> (r: (String, String, String))
    ensures
        r.0@ == (match email { Some(e) => e@, None => existing.email@ }),
        r.1@ == (match username { Some(u) => u@, None => existing.username@ }),
        r.2@ == (match password_hash { Some(h) => h@, None => existing.password_hash@ }),
{
    let e = match email {
        Some(e) => e,
        None => existing.email.clone(),
    };
    let u = match username {
        Some(u) => u,
        None => existing.username.clone(),
    };
    let h = match password_hash {
        Some(h) => h,
        None => existing.password_hash.clone(),
    };
    (e, u, h)
}

/// The error when the database cannot be reached: the service is
/// unavailable, with the driver's message after `Database error: `.
pub fn database_unavailable(message: &str) -> (r: ApiError)
    ensures
        r matches ApiError::ServiceUnavailable(m) && m@ == "Database error: "@ + message@,
{
    let mut s = String::new();
    push_str(&mut s, "Database error: ");
    push_str(&mut s, message);
    ApiError::ServiceUnavailable(s)
}

} // verus!
