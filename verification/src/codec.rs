//! Calls into the Base64, JSON and JSON Web Token crates.

use base64::Engine;
use vstd::prelude::*;

use crate::ids::hex_char;
use crate::models::TokenClaims;

verus! {

/// The URL-safe, unpadded Base64 text of `bytes`, as written by the
/// `base64` crate's `URL_SAFE_NO_PAD` engine.
pub uninterp spec fn base64_url_encoded(bytes: Seq<u8>) -> Seq<char>;

/// What the `URL_SAFE_NO_PAD` engine decodes `text` to, if anything.
pub uninterp spec fn base64_url_decoded(text: Seq<char>) -> Option<Seq<u8>>;

/// How `serde_json` writes one character inside a string literal: `"`
/// and `\` after a backslash; backspace, tab, line feed, form feed and
/// carriage return as `\b`, `\t`, `\n`, `\f`, `\r`; the other control
/// characters below U+0020 as `\u00XX` in lower-case hex; every other
/// character as itself.
pub open spec fn json_escape_char(c: char) -> Seq<char> {
    if c == '"' {
        seq!['\\', '"']
    } else if c == '\\' {
        seq!['\\', '\\']
    } else if c == '\u{8}' {
        seq!['\\', 'b']
    } else if c == '\t' {
        seq!['\\', 't']
    } else if c == '\n' {
        seq!['\\', 'n']
    } else if c == '\u{c}' {
        seq!['\\', 'f']
    } else if c == '\r' {
        seq!['\\', 'r']
    } else if (c as int) < 0x20 {
        seq!['\\', 'u', '0', '0', hex_char((c as int / 16) as nat), hex_char((c as int % 16) as nat)]
    } else {
        seq![c]
    }
}

/// The characters of `s`, each written as `json_escape_char` says.
pub open spec fn json_escaped(s: Seq<char>) -> Seq<char>
    decreases s.len(),
{
    if s.len() == 0 {
        Seq::empty()
    } else {
        json_escaped(s.drop_last()) + json_escape_char(s.last())
    }
}

/// The JSON string literal `serde_json` writes for `s`, quotes included.
pub open spec fn json_quoted(s: Seq<char>) -> Seq<char> {
    seq!['"'] + json_escaped(s) + seq!['"']
}

/// An HS256-signed JSON Web Token with the default header
/// (`{"typ":"JWT","alg":"HS256"}`), signed with `secret`, as
/// `jsonwebtoken::encode` writes it for the JSON text `claims` handed over
/// as a raw value: the claims part is the JSON value that `claims` holds,
/// written as in `claims` without surrounding whitespace.
pub uninterp spec fn jwt_hs256(claims: Seq<char>, secret: Seq<u8>) -> Seq<char>;

/// Whether `token` passes the checks of `jsonwebtoken::decode` with
/// `DecodingKey::from_secret(secret)` and `Validation::default()` that do
/// not read the clock: three parts, a readable header naming HS256, an
/// HMAC-SHA256 signature by `secret` over header and payload, and a
/// payload that is JSON.
pub uninterp spec fn jwt_verifies(token: Seq<char>, secret: Seq<u8>) -> bool;

/// The JSON text carried in the payload part of `token`, decoded from
/// Base64 with surrounding whitespace dropped.
pub uninterp spec fn jwt_claims_text(token: Seq<char>) -> Seq<char>;

/// The characters of the URL-safe Base64 alphabet.
pub open spec fn url_safe_char(c: char) -> bool {
    ('A' <= c <= 'Z') || ('a' <= c <= 'z') || ('0' <= c <= '9') || c == '-' || c == '_'
}

/// The JSON text of token claims, members in declaration order.
pub open spec fn claims_json(c: TokenClaims) -> Seq<char> {
    "{\"sub\":"@ + json_quoted(c.sub@) + ",\"user_id\":"@ + json_quoted(c.user_id@) + ",\"iat\":"@
        + crate::text::signed_decimal(c.iat as int) + ",\"exp\":"@ + crate::text::signed_decimal(c.exp as int)
        + ",\"iss\":"@ + json_quoted(c.iss@) + "}"@
}

/// `Engine::encode` of `base64::engine::general_purpose::URL_SAFE_NO_PAD`.
/// Claimed: the text is the one named by `base64_url_encoded`, written in
/// the URL-safe alphabet without padding. The crate panics only when the
/// output length overflows `usize`, which a slice of at most `isize::MAX`
/// bytes cannot cause.
#[verifier::external_body]
pub(crate) fn base64_url_encode(bytes: &[u8]) -> (r: String)
    requires
        bytes@.len() <= isize::MAX,
    ensures
        r@ == base64_url_encoded(bytes@),
        forall|i: int| 0 <= i < r@.len() ==> url_safe_char(#[trigger] r@[i]),
{
    base64::engine::general_purpose::URL_SAFE_NO_PAD.encode(bytes)
}

/// `Engine::decode` of `URL_SAFE_NO_PAD`, with the error dropped.
/// Claimed: the result is the one named by `base64_url_decoded`, and the
/// text that the same engine wrote for some bytes decodes to those bytes
/// (the crate's round trip).
#[verifier::external_body]
pub(crate) fn base64_url_decode(text: &str) -> (r: Option<Vec<u8>>)
    ensures
        match r {
            Some(v) => base64_url_decoded(text@) == Some(v@),
            None => base64_url_decoded(text@) is None,
        },
        forall|b: Seq<u8>| text@ == #[trigger] base64_url_encoded(b) ==> r is Some && r.unwrap()@ == b,
{
    base64::engine::general_purpose::URL_SAFE_NO_PAD.decode(text).ok()
}

/// `serde_json::to_string` of a string: its JSON literal. Serializing a
/// string into memory cannot fail. Claimed: the text named by `json_quoted`.
#[verifier::external_body]
pub(crate) fn json_quote(s: &str) -> (r: String)
    ensures
        r@ == json_quoted(s@),
{
    match serde_json::to_string(s) {
        Ok(t) => t,
        Err(_) => String::new(),
    }
}

/// `jsonwebtoken::encode` with `Header::default()` and
/// `EncodingKey::from_secret(secret)`, the claims handed over as the raw
/// JSON text `claims` (`serde_json::value::RawValue::from_string`, which
/// re-reads the text, keeps it as written but for surrounding whitespace,
/// and fails only on text that is not JSON); an error is handed back as
/// its message. `requires` admits only claims written by `claims_json`:
/// JSON objects of serde_json's own string literals and decimal integers,
/// with no surrounding whitespace. With an HMAC key and the default header
/// nothing else can fail. Claimed: the token is the one named by
/// `jwt_hs256`, passes the clock-free checks, and carries `claims` as
/// its payload text.
#[verifier::external_body]
pub(crate) fn jwt_sign(claims: &str, secret: &[u8]) -> (r: Result<String, String>)
    requires
        exists|c: TokenClaims| claims@ == #[trigger] claims_json(c),
    ensures
        r is Ok,
        r matches Ok(t) ==> t@ == jwt_hs256(claims@, secret@) && jwt_verifies(t@, secret@)
            && jwt_claims_text(t@) == claims@,
{
    let raw = serde_json::value::RawValue::from_string(claims.to_string()).map_err(|e| e.to_string())?;
    jsonwebtoken::encode(&jsonwebtoken::Header::default(), &raw, &jsonwebtoken::EncodingKey::from_secret(secret))
        .map_err(|e| e.to_string())
}

/// `jsonwebtoken::decode::<Box<RawValue>>` with
/// `DecodingKey::from_secret(secret)` and `Validation::default()`, giving
/// back the claims as JSON text; any error (forged or malformed token,
/// missing or past expiry, read from the clock) gives `None`. Claimed: a
/// token that is accepted passes the clock-free checks and its claims are
/// the payload's text. Which tokens the clock refuses is not claimed.
#[verifier::external_body]
pub(crate) fn jwt_verify(token: &str, secret: &[u8]) -> (r: Option<String>)
    ensures
        r matches Some(c) ==> jwt_verifies(token@, secret@) && c@ == jwt_claims_text(token@),
{
    match jsonwebtoken::decode::<Box<serde_json::value::RawValue>>(
        token,
        &jsonwebtoken::DecodingKey::from_secret(secret),
        &jsonwebtoken::Validation::default(),
    ) {
        Ok(data) => Some(data.claims.get().to_string()),
        Err(_) => None,
    }
}

} // verus!
