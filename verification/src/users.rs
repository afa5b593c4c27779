//! User management: checking new users, making and hashing them,
//! and the decisions around the user store.

use vstd::prelude::*;
use vstd::utf8::encode_utf8;

use crate::errors::ApiError;
use crate::ids::{new_uuid_v4, utc_now_micros};
use crate::models::{CreateUserRequest, User};
use crate::password::{
    argon2_accepts, argon2id_hash, default_cost, law_made_hash_checks_out, password_step, phc_parses, phc_value,
    PasswordCheck, PhcValue,
};

verus! {

/// The message of the error for a malformed e-mail address.
pub open spec fn invalid_email_message() -> Seq<char> {
    "Invalid email format"@
}

/// The message of the error for a user name of the wrong length.
pub open spec fn invalid_username_message() -> Seq<char> {
    "Username must be between 3 and 50 characters"@
}

/// The message of the error for a short password.
pub open spec fn short_password_message() -> Seq<char> {
    "Password must be at least 8 characters"@
}

/// Which check a new user fails first, if any: the e-mail must be
/// non-empty and hold `@`; the user name must take 3 to 50 bytes; the
/// password at least 8 bytes (lengths in UTF-8 bytes).
pub open spec fn create_request_error(r: CreateUserRequest) -> Option<Seq<char>> {
    if r.email@.len() == 0 || !r.email@.contains('@') {
        Some(invalid_email_message())
    } else if encode_utf8(r.username@).len() < 3 || encode_utf8(r.username@).len() > 50 {
        Some(invalid_username_message())
    } else if encode_utf8(r.password@).len() < 8 {
        Some(short_password_message())
    } else {
        None
    }
}

/// The longest password, in bytes, that Argon2 hashes.
pub open spec fn max_password_bytes() -> int {
    0xFFFF_FFFF
}

/// Whether `hash` is a hash of `password` made with the default Argon2id
/// cost: a well-formed PHC string that Argon2 accepts for the password,
/// recording 19456 memory blocks and one lane.
pub open spec fn default_hash_of(password: Seq<char>, hash: Seq<char>) -> bool {
    &&& phc_parses(hash)
    &&& argon2_accepts(encode_utf8(password), hash)
    &&& phc_value(hash, "m"@) == Some(PhcValue::Decimal(19456))
    &&& phc_value(hash, "p"@) == Some(PhcValue::Decimal(1))
}

/// Whether `user` stores a default-cost hash of `password`.
pub open spec fn stores_password(user: User, password: Seq<char>) -> bool {
    default_hash_of(password, user.password_hash@)
}

/// A creation request passes the checks exactly when its e-mail is
/// non-empty and holds `@`, its user name takes 3 to 50 bytes and its
/// password at least 8 bytes; otherwise the first failed check, in that
/// order, names the error.
pub proof fn law_create_request_checks(r: CreateUserRequest)
    ensures
        create_request_error(r) is None <==> {
            &&& r.email@.len() > 0
            &&& r.email@.contains('@')
            &&& 3 <= encode_utf8(r.username@).len() <= 50
            &&& encode_utf8(r.password@).len() >= 8
        },
        (r.email@.len() == 0 || !r.email@.contains('@')) ==> create_request_error(r) == Some(
            "Invalid email format"@,
        ),
        (r.email@.len() > 0 && r.email@.contains('@') && !(3 <= encode_utf8(r.username@).len() <= 50))
            ==> create_request_error(r) == Some("Username must be between 3 and 50 characters"@),
        (r.email@.len() > 0 && r.email@.contains('@') && 3 <= encode_utf8(r.username@).len() <= 50
            && encode_utf8(r.password@).len() < 8) ==> create_request_error(r) == Some(
            "Password must be at least 8 characters"@,
        ),
{
}

/// Whether `s` holds the character `c`.
pub fn contains_char(s: &str, c: char) -> (r: bool)
    ensures
        r == s@.contains(c),
{
    for d in it: s.chars()
        invariant
            it.seq() == s@,
            forall|j: int| 0 <= j < it.index() ==> s@[j] != c,
    {
        if d == c {
            assert(s@[it.index() as int] == c);
            return true;
        }
    }
    false
}

/// Checks a request to create a user; the first failed check is a bad
/// request with its message.
pub fn validate_create_request(request: &CreateUserRequest) -> (r: Result<(), ApiError>)
    requires
        encode_utf8(request.username@).len() <= usize::MAX,
        encode_utf8(request.password@).len() <= usize::MAX,
    ensures
        match create_request_error(*request) {
            None => r is Ok,
            Some(m) => r matches Err(ApiError::BadRequest(s)) && s@ == m,
        },
        (r is Ok) <==> {
            &&& request.email@.len() > 0
            &&& request.email@.contains('@')
            &&& 3 <= encode_utf8(request.username@).len() <= 50
            &&& encode_utf8(request.password@).len() >= 8
        },
{
    proof {
        law_create_request_checks(*request);
    }
    let email = request.email.as_str();
    if email.is_empty() || !contains_char(email, '@') {
        return Err(ApiError::BadRequest(String::from_str("Invalid email format")));
    }
    let ulen = request.username.as_str().len();
    if ulen < 3 || ulen > 50 {
        return Err(ApiError::BadRequest(String::from_str("Username must be between 3 and 50 characters")));
    }
    if request.password.as_str().len() < 8 {
        return Err(ApiError::BadRequest(String::from_str("Password must be at least 8 characters")));
    }
    Ok(())
}

/// Hashes `password` with the default Argon2id parameters and a fresh
/// salt. It succeeds exactly when the password is short enough for
/// Argon2; a failed hash is an internal error.
pub fn hash_password(password: &str) -> (r: Result<String, ApiError>)
    ensures
        (r is Ok) <==> encode_utf8(password@).len() <= max_password_bytes(),
        r matches Ok(h) ==> default_hash_of(password@, h@),
        r matches Err(e) ==> e is Internal,
{
    let cost = default_cost();
    match argon2id_hash(&cost, password.as_bytes()) {
        Ok(h) => Ok(h),
        Err(m) => Err(ApiError::Internal(m)),
    }
}

impl User {
    /// A new user with a random id, created and updated now.
    pub fn new(email: String, username: String, password_hash: String) -> (r: Self)
        ensures
            r.email == email,
            r.username == username,
            r.password_hash == password_hash,
            r.created_at == r.updated_at,
    {
        let now = utc_now_micros();
        User { id: new_uuid_v4(), email, username, password_hash, created_at: now, updated_at: now }
    }
}

/// The user to store for a creation request: the request is checked,
/// the password hashed, and the user made. A valid request gives a user
/// unless the password is too long for Argon2; the user has the requested
/// e-mail and name and stores a hash of the requested password.
pub fn prepare_user(request: CreateUserRequest) -> (r: Result<User, ApiError>)
    requires
        encode_utf8(request.username@).len() <= usize::MAX,
        encode_utf8(request.password@).len() <= usize::MAX,
    ensures
        match create_request_error(request) {
            Some(m) => r matches Err(ApiError::BadRequest(s)) && s@ == m,
            None => {
                &&& (r is Ok) <==> encode_utf8(request.password@).len() <= max_password_bytes()
                &&& match r {
                    Ok(u) => u.email@ == request.email@ && u.username@ == request.username@
                        && u.created_at == u.updated_at && stores_password(u, request.password@),
                    Err(e) => e is Internal,
                }
            },
        },
{
    validate_create_request(&request)?;
    let password_hash = hash_password(request.password.as_str())?;
    Ok(User::new(request.email, request.username, password_hash))
}

/// The hash to store for a change of password, when one is given; it is
/// made unless the password is too long for Argon2.
pub fn prepare_password_update(password: Option<String>) -> (r: Result<Option<String>, ApiError>)
    ensures
        match password {
            None => r == Ok::<Option<String>, ApiError>(None),
            Some(p) => {
                &&& (r is Ok) <==> encode_utf8(p@).len() <= max_password_bytes()
                &&& match r {
                    Ok(Some(h)) => default_hash_of(p@, h@),
                    Ok(None) => false,
                    Err(e) => e is Internal,
                }
            },
        },
{
    match password {
        None => Ok(None),
        Some(p) => {
            let h = hash_password(p.as_str())?;
            Ok(Some(h))
        },
    }
}

/// A user that stores a default-cost hash of a password (as the users
/// made by `prepare_user` do) passes the password check at login with
/// that password.
pub proof fn law_created_user_logs_in(user: User, password: Seq<char>)
    requires
        stores_password(user, password),
    ensures
        password_step(encode_utf8(password), user.password_hash@) == PasswordCheck::Match,
{
    law_made_hash_checks_out(encode_utf8(password), user.password_hash@, 1);
}

} // verus!
