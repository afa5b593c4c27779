//! Authentication: bearer headers, token claims, signing tokens, and
//! logging in with a stored password hash.

use std::sync::Arc;

use vstd::prelude::*;
use vstd::utf8::encode_utf8;

use crate::codec::{
    claims_json, json_quote, jwt_claims_text, jwt_hs256, jwt_sign, jwt_verifies, jwt_verify,
};
use crate::config::Settings;
use crate::errors::ApiError;
use crate::ids::{utc_now_micros, uuid_text, uuid_to_string};
use crate::models::{LoginRequest, LoginResponse, TokenClaims, User};
use crate::password::{
    argon2_hash_succeeds, argon2id_hash, password_step, verify_stored_password, Argon2Cost, PasswordCheck,
};
use crate::text::{push_i64, push_str};

verus! {

/// The scheme prefix of an `Authorization` header carrying a token.
pub open spec fn bearer_prefix() -> Seq<char> {
    seq!['B', 'e', 'a', 'r', 'e', 'r', ' ']
}

/// The token of an `Authorization` header: what follows `Bearer `; a
/// missing header or another scheme is refused as unauthorized.
pub open spec fn bearer_token_of(header: Option<&str>) -> Option<Seq<char>> {
    match header {
        Some(h) => if h@.len() >= 7 && h@.take(7) == bearer_prefix() {
            Some(h@.skip(7))
        } else {
            None
        },
        None => None,
    }
}

/// A header that starts with `Bearer ` carries a token, and the token is
/// all the rest of the header: the prefix followed by the token gives the
/// header back. A header without that prefix carries none.
pub proof fn law_bearer_token_is_the_rest(h: &str)
    ensures
        (h@.len() >= 7 && h@.take(7) == bearer_prefix()) <==> bearer_token_of(Some(h)) is Some,
        bearer_token_of(Some(h)) matches Some(t) ==> bearer_prefix() + t == h@,
{
    if h@.len() >= 7 && h@.take(7) == bearer_prefix() {
        assert(bearer_prefix() + h@.skip(7) =~= h@);
    }
}

/// The token carried by an `Authorization` header value (`None` when the
/// header is absent or not text), or `Unauthorized`.
pub fn bearer_token(header: Option<&str>) -> (r: Result<String, ApiError>)
    ensures
        match bearer_token_of(header) {
            Some(t) => r matches Ok(s) && s@ == t,
            None => r == Err::<String, ApiError>(ApiError::Unauthorized),
        },
        r matches Ok(s) ==> header matches Some(h) && h@ == bearer_prefix() + s@,
        (header matches Some(h) && h@.len() >= 7 && h@.take(7) == bearer_prefix()) ==> r is Ok,
{
    proof {
        if let Some(h) = header {
            law_bearer_token_is_the_rest(h);
        }
    }
    match header {
        None => Err(ApiError::Unauthorized),
        Some(h) => {
            let n = h.unicode_len();
            if n < 7 {
                return Err(ApiError::Unauthorized);
            }
            let prefix = ['B', 'e', 'a', 'r', 'e', 'r', ' '];
            let mut i: usize = 0;
            while i < 7
                invariant
                    header == Some(h),
                    n == h@.len(),
                    n >= 7,
                    i <= 7,
                    prefix@ == bearer_prefix(),
                    forall|j: int| 0 <= j < i ==> h@[j] == bearer_prefix()[j],
                decreases 7 - i,
            {
                if h.get_char(i) != prefix[i] {
                    assert(h@.take(7)[i as int] != bearer_prefix()[i as int]);
                    return Err(ApiError::Unauthorized);
                }
                i = i + 1;
            }
            assert(h@.take(7) =~= bearer_prefix());
            let token = h.substring_char(7, n);
            Ok(String::from_str(token))
        },
    }
}

/// The largest lifetime offset (the lifetime cast with `expiration as
/// i64`) for which the expiry time cannot overflow, whatever the clock
/// reads: the clock's seconds lie within ±9 223 372 036 855.
pub const MAX_TOKEN_OFFSET: i64 = 9_223_362_813_482_738_952;

/// Whether a token lifetime gives an expiry that cannot overflow,
/// whatever the clock reads. Lifetimes above `i64::MAX` wrap to negative
/// offsets, as the cast does.
pub open spec fn lifetime_fits(expiration: u64) -> bool {
    -MAX_TOKEN_OFFSET <= (expiration as i64) <= MAX_TOKEN_OFFSET
}

/// Whether a token lifetime gives an expiry that cannot overflow.
pub fn token_lifetime_fits(expiration: u64) -> (r: bool)
    ensures
        r == lifetime_fits(expiration),
{
    let offset = expiration as i64;
    -MAX_TOKEN_OFFSET <= offset && offset <= MAX_TOKEN_OFFSET
}

/// `c` holds the claims of a token for user `user_id` with e-mail
/// `email`, from `issuer`, issued at `now` (seconds) and valid for
/// `expiration` seconds.
pub open spec fn claims_issued(c: TokenClaims, user_id: u128, email: Seq<char>, issuer: Seq<char>, expiration: u64, now: i64) -> bool {
    &&& c.sub@ == email
    &&& c.user_id@ == uuid_text(user_id)
    &&& c.iat == now
    &&& c.exp == now + (expiration as i64)
    &&& c.iss@ == issuer
}

/// Whole seconds since the epoch, rounded down, of a time in microseconds.
fn seconds_of_micros(micros: i64) -> (r: i64)
    ensures
        r * 1_000_000 <= micros < r * 1_000_000 + 1_000_000,
        -9_223_372_036_855 <= r <= 9_223_372_036_854,
{
    if micros >= 0 {
        let r = micros / 1_000_000;
        assert(r * 1_000_000 <= micros < r * 1_000_000 + 1_000_000) by (nonlinear_arith)
            requires
                micros >= 0,
                r == micros / 1_000_000,
        ;
        r
    } else {
        let m: i64 = -(micros + 1);
        let q = m / 1_000_000;
        assert(q * 1_000_000 <= m < q * 1_000_000 + 1_000_000) by (nonlinear_arith)
            requires
                m >= 0,
                q == m / 1_000_000,
        ;
        assert(q <= 9_223_372_036_854) by (nonlinear_arith)
            requires
                q * 1_000_000 <= m,
                m <= 9_223_372_036_854_775_807,
        ;
        -q - 1
    }
}

impl TokenClaims {
    /// The claims of a token issued at `now` (seconds since the epoch).
    pub fn issued_at(user_id: u128, email: String, issuer: &str, expiration: u64, now: i64) -> (r: Self)
        requires
            i64::MIN <= now + (expiration as i64) <= i64::MAX,
        ensures
            claims_issued(r, user_id, email@, issuer@, expiration, now),
    {
        TokenClaims {
            sub: email,
            user_id: uuid_to_string(user_id),
            iat: now,
            exp: now + expiration as i64,
            iss: String::from_str(issuer),
        }
    }

    /// The claims of a token issued now, by the clock, valid for
    /// `expiration` seconds.
    pub fn new(user_id: u128, email: String, issuer: &str, expiration: u64) -> (r: Self)
        requires
            lifetime_fits(expiration),
        ensures
            exists|now: i64| claims_issued(r, user_id, email@, issuer@, expiration, now),
    {
        let now = seconds_of_micros(utc_now_micros());
        TokenClaims::issued_at(user_id, email, issuer, expiration, now)
    }

    /// The claims as compact JSON, strings written by `serde_json`.
    pub fn to_json(&self) -> (r: String)
        ensures
            r@ == claims_json(*self),
    {
        let mut s = String::new();
        push_str(&mut s, "{\"sub\":");
        let t = json_quote(self.sub.as_str());
        push_str(&mut s, t.as_str());
        push_str(&mut s, ",\"user_id\":");
        let t = json_quote(self.user_id.as_str());
        push_str(&mut s, t.as_str());
        push_str(&mut s, ",\"iat\":");
        push_i64(&mut s, self.iat);
        push_str(&mut s, ",\"exp\":");
        push_i64(&mut s, self.exp);
        push_str(&mut s, ",\"iss\":");
        let t = json_quote(self.iss.as_str());
        push_str(&mut s, t.as_str());
        push_str(&mut s, "}");
        assert(s@ =~= claims_json(*self));
        s
    }
}

/// The message of the error answered when a stored hash cannot be read.
pub open spec fn malformed_hash_message() -> Seq<char> {
    "Invalid password hash format"@
}

/// What a token that `login` issues holds: it is the HS256 token of the
/// claims of a token issued for the user at some time (its `iat`), passes
/// the clock-free checks with the secret, and carries those claims.
pub open spec fn issued_token(token: Seq<char>, u: User, s: Settings) -> bool {
    exists|c: TokenClaims| {
        &&& claims_issued(c, u.id, u.email@, s.jwt.issuer@, s.jwt.expiration, c.iat)
        &&& #[trigger] jwt_hs256(claims_json(c), encode_utf8(s.jwt.secret@)) == token
        &&& jwt_verifies(token, encode_utf8(s.jwt.secret@))
        &&& jwt_claims_text(token) == claims_json(c)
    }
}

/// The answer to a token check: the claims of an accepted token, and
/// `Unauthorized` for a refused one.
pub fn claims_or_unauthorized(checked: Option<String>) -> (r: Result<String, ApiError>)
    ensures
        match checked {
            Some(c) => r == Ok::<String, ApiError>(c),
            None => r == Err::<String, ApiError>(ApiError::Unauthorized),
        },
{
    match checked {
        Some(c) => Ok(c),
        None => Err(ApiError::Unauthorized),
    }
}

/// Whether a login succeeds at checking credentials: the lookup found a
/// user whose stored hash accepts the password.
pub open spec fn credentials_accepted(found: Result<User, ApiError>, request: LoginRequest) -> bool {
    found matches Ok(u) && password_step(encode_utf8(request.password@), u.password_hash@) == PasswordCheck::Match
}

/// Checks the credentials of a login against the user the e-mail lookup
/// found (or its error, handed on): an unreadable stored hash is an
/// internal error, a password it does not accept is unauthorized, and a
/// matching one gives the user back.
pub fn check_credentials(found: Result<User, ApiError>, request: &LoginRequest) -> (r: Result<User, ApiError>)
    ensures
        match found {
            Err(e) => r == Err::<User, ApiError>(e),
            Ok(u) => match password_step(encode_utf8(request.password@), u.password_hash@) {
                PasswordCheck::Malformed => r matches Err(ApiError::Internal(m)) && m@ == malformed_hash_message(),
                PasswordCheck::Mismatch => r == Err::<User, ApiError>(ApiError::Unauthorized),
                PasswordCheck::Match => r == Ok::<User, ApiError>(u),
            },
        },
{
    let user = match found {
        Ok(u) => u,
        Err(e) => return Err(e),
    };
    match verify_stored_password(request.password.as_str().as_bytes(), user.password_hash.as_str()) {
        PasswordCheck::Malformed => Err(ApiError::Internal(String::from_str("Invalid password hash format"))),
        PasswordCheck::Mismatch => Err(ApiError::Unauthorized),
        PasswordCheck::Match => Ok(user),
    }
}

/// Logs users in, checks tokens and hashes passwords, with the service's
/// settings.
pub struct AuthService {
    settings: Arc<Settings>,
}

impl AuthService {
    /// The settings the service was made with.
    pub closed spec fn settings(&self) -> Settings {
        *self.settings
    }

    /// A service using `settings`.
    pub fn new(settings: Arc<Settings>) -> (r: Self)
        ensures
            r.settings() == *settings,
    {
        AuthService { settings }
    }

    /// Signs `claims` with the configured secret.
    pub fn sign_claims(&self, claims: &TokenClaims) -> (r: Result<String, ApiError>)
        ensures
            r matches Ok(t) && t@ == jwt_hs256(claims_json(*claims), encode_utf8(self.settings().jwt.secret@))
                && jwt_verifies(t@, encode_utf8(self.settings().jwt.secret@))
                && jwt_claims_text(t@) == claims_json(*claims),
    {
        let json = claims.to_json();
        assert(claims_json(*claims) == json@);
        match jwt_sign(json.as_str(), self.settings.jwt.secret.as_str().as_bytes()) {
            Ok(t) => Ok(t),
            Err(m) => Err(ApiError::Internal(m)),
        }
    }

    /// The claims (as JSON text) of a token signed with the configured
    /// secret and not expired; any other token is unauthorized.
    pub fn verify_token(&self, token: &str) -> (r: Result<String, ApiError>)
        ensures
            r is Err ==> r == Err::<String, ApiError>(ApiError::Unauthorized),
            r matches Ok(c) ==> jwt_verifies(token@, encode_utf8(self.settings().jwt.secret@))
                && c@ == jwt_claims_text(token@),
    {
        let checked = jwt_verify(token, self.settings.jwt.secret.as_str().as_bytes());
        claims_or_unauthorized(checked)
    }

    /// Issues a token for `user`, valid for the configured lifetime.
    pub fn issue_token(&self, user: &User) -> (r: Result<LoginResponse, ApiError>)
        requires
            lifetime_fits(self.settings().jwt.expiration),
        ensures
            r matches Ok(resp) && {
                &&& resp.token_type@ == "Bearer"@
                &&& resp.expires_in == self.settings().jwt.expiration
                &&& issued_token(resp.token@, *user, self.settings())
            },
    {
        let expiration = self.settings.jwt.expiration;
        let claims = TokenClaims::new(user.id, user.email.clone(), self.settings.jwt.issuer.as_str(), expiration);
        let token = self.sign_claims(&claims)?;
        Ok(LoginResponse { token, token_type: String::from_str("Bearer"), expires_in: expiration })
    }

    /// Logs in with the user the e-mail lookup found (or its error): the
    /// credentials are checked as `check_credentials` does, and a token is
    /// issued for the user, valid for the configured lifetime. Only a
    /// login whose password matches needs the lifetime to fit.
    pub fn login(&self, found: Result<User, ApiError>, request: &LoginRequest) -> (r: Result<LoginResponse, ApiError>)
        requires
            credentials_accepted(found, *request) ==> lifetime_fits(self.settings().jwt.expiration),
        ensures
            match found {
                Err(e) => r == Err::<LoginResponse, ApiError>(e),
                Ok(u) => match password_step(encode_utf8(request.password@), u.password_hash@) {
                    PasswordCheck::Malformed => r matches Err(ApiError::Internal(m)) && m@ == malformed_hash_message(),
                    PasswordCheck::Mismatch => r == Err::<LoginResponse, ApiError>(ApiError::Unauthorized),
                    PasswordCheck::Match => r matches Ok(resp) && {
                        &&& resp.token_type@ == "Bearer"@
                        &&& resp.expires_in == self.settings().jwt.expiration
                        &&& issued_token(resp.token@, u, self.settings())
                    },
                },
            },
    {
        let user = check_credentials(found, request)?;
        self.issue_token(&user)
    }

    /// The configured hasher: Argon2id with the configured memory, passes
    /// and lanes and a 128-byte output.
    pub closed spec fn configured_cost(&self) -> Argon2Cost {
        Argon2Cost {
            memory: self.settings().argon2.memory,
            iterations: self.settings().argon2.iterations,
            parallelism: self.settings().argon2.parallelism,
            output_len: Some(128usize),
        }
    }

    /// Hashes `password` with Argon2id, the configured cost and a
    /// 128-byte output. A PHC string holds at most 64 bytes of output, so
    /// this always fails, with an internal error: the parameters' error
    /// when they are invalid, the output's otherwise.
    pub fn hash_password(&self, password: &str) -> (r: Result<String, ApiError>)
        requires
            self.settings().argon2.memory < 8 || self.settings().argon2.parallelism <= 0x1FFF_FFFF,
        ensures
            r matches Err(e) && e is Internal,
            !argon2_hash_succeeds(self.configured_cost(), encode_utf8(password@)),
    {
        let cost = Argon2Cost {
            memory: self.settings.argon2.memory,
            iterations: self.settings.argon2.iterations,
            parallelism: self.settings.argon2.parallelism,
            output_len: Some(128),
        };
        match argon2id_hash(&cost, password.as_bytes()) {
            Ok(h) => Ok(h),
            Err(m) => Err(ApiError::Internal(m)),
        }
    }
}

} // verus!
