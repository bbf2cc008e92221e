//! Passwords and session tokens: bcrypt hashes and signed JSON Web Tokens.
use vstd::prelude::*;
use crate::login::{session_expiry, unix_now};

verus! {

/// Whether bcrypt accepts `password` against the stored `hash`, as
/// `bcrypt::verify` decides it (a malformed hash accepts nothing).
pub uninterp spec fn bcrypt_accepts(password: Seq<char>, hash: Seq<char>) -> bool;

/// Checks `password` against a stored hash with `bcrypt::verify`; a hash
/// that bcrypt cannot read counts as a mismatch. Claimed: the answer is
/// `bcrypt_accepts` of the two.
#[verifier::external_body]
pub fn verify_password(password: &str, hash: &str) -> (ok: bool)
    ensures
        ok == bcrypt_accepts(password@, hash@),
{
    bcrypt::verify(password, hash).unwrap_or(false)
}

/// Whether `e` is the text of bcrypt's error for a failure of the system's
/// source of randomness.
pub open spec fn random_source_failure(e: Seq<char>) -> bool {
    e.len() >= 12 && e.take(12) == "Rand error: "@
}

/// Hashes `password` with `bcrypt::hash` at bcrypt's default cost, with a
/// random salt. Claimed: a hash it returns is one that `bcrypt::verify`
/// accepts for the same password; and, as bcrypt's source shows for a valid
/// cost, it fails only when drawing the salt from the system's randomness
/// fails, with the text of that error. Which hash comes out, and whether
/// the randomness fails, are left open.
#[verifier::external_body]
pub fn hash_password(password: &str) -> (h: Result<String, String>)
    ensures
        h matches Ok(s) ==> bcrypt_accepts(password@, s@),
        h matches Err(e) ==> random_source_failure(e@),
{
    bcrypt::hash(password, bcrypt::DEFAULT_COST).map_err(|e| e.to_string())
}

/// The session token that `jsonwebtoken::encode` makes with the default
/// header (HS256) for the claims `sub`, `username`, `role` and `exp`,
/// signed with `secret`.
pub uninterp spec fn session_token_of(
    sub: Seq<char>,
    username: Seq<char>,
    role: Seq<char>,
    exp: i64,
    secret: Seq<char>,
) -> Seq<char>;

/// The claims `(sub, username, role, exp)` that `jsonwebtoken::decode`
/// reads from `token` when its HS256 signature checks out under `secret`,
/// with no expiry or audience check of its own; `None` for any token that
/// does not decode or lacks one of these claims.
pub uninterp spec fn session_claims_of(token: Seq<char>, secret: Seq<char>) -> Option<
    (Seq<char>, Seq<char>, Seq<char>, i64),
>;

/// Signs the claims with `jsonwebtoken::encode` (default header, HS256,
/// key `EncodingKey::from_secret`). Claimed, as the source shows: signing
/// with an HMAC key never fails, the token is `session_token_of` the
/// arguments, and decoding it under the same secret gives the claims back.
#[verifier::external_body]
fn encode_session_token(sub: &str, username: &str, role: &str, exp: i64, secret: &str) -> (t:
    Result<String, String>)
    ensures
        t is Ok,
        t matches Ok(s) ==> s@ == session_token_of(sub@, username@, role@, exp, secret@),
        t matches Ok(s) ==> session_claims_of(s@, secret@) == Some((sub@, username@, role@, exp)),
{
    let mut claims = serde_json::Map::new();
    claims.insert(String::from("sub"), serde_json::Value::from(sub));
    claims.insert(String::from("username"), serde_json::Value::from(username));
    claims.insert(String::from("role"), serde_json::Value::from(role));
    claims.insert(String::from("exp"), serde_json::Value::from(exp));
    let key = jsonwebtoken::EncodingKey::from_secret(secret.as_bytes());
    let header = jsonwebtoken::Header::default();
    jsonwebtoken::encode(&header, &serde_json::Value::Object(claims), &key).map_err(|e| e.to_string())
}

/// The claims a session token carries.
pub struct SessionClaims {
    pub sub: String,
    pub username: String,
    pub role: String,
    pub exp: i64,
}

/// The claims as plain values.
pub open spec fn claims_view(c: SessionClaims) -> (Seq<char>, Seq<char>, Seq<char>, i64) {
    (c.sub@, c.username@, c.role@, c.exp)
}

/// Reads a token with `jsonwebtoken::decode` (HS256 only, key
/// `DecodingKey::from_secret`, expiry and required claims not checked
/// there) into a JSON object, then picks its `sub`, `username` and `role`
/// strings and its `exp` integer. Claimed: the result is
/// `session_claims_of` the token and secret.
#[verifier::external_body]
fn decode_session_token(token: &str, secret: &str) -> (c: Option<SessionClaims>)
    ensures
        match c {
            Some(x) => session_claims_of(token@, secret@) == Some(claims_view(x)),
            None => session_claims_of(token@, secret@) is None,
        },
{
    let mut validation = jsonwebtoken::Validation::new(jsonwebtoken::Algorithm::HS256);
    validation.validate_exp = false;
    validation.required_spec_claims.clear();
    let key = jsonwebtoken::DecodingKey::from_secret(secret.as_bytes());
    let data = jsonwebtoken::decode::<serde_json::Map<String, serde_json::Value>>(token, &key, &validation).ok()?;
    let c = data.claims;
    Some(SessionClaims {
        sub: c.get("sub")?.as_str()?.to_string(),
        username: c.get("username")?.as_str()?.to_string(),
        role: c.get("role")?.as_str()?.to_string(),
        exp: c.get("exp")?.as_i64()?,
    })
}

/// A result with text on both sides, as plain values.
pub open spec fn text_result(r: Result<String, String>) -> Result<Seq<char>, Seq<char>> {
    match r {
        Ok(s) => Ok(s@),
        Err(e) => Err(e@),
    }
}

/// The token made at time `now` for a session of `days` days: signed
/// claims that expire `days` whole days after `now`, or an error when that
/// instant does not fit in an `i64`.
pub open spec fn token_result_spec(
    sub: Seq<char>,
    username: Seq<char>,
    role: Seq<char>,
    secret: Seq<char>,
    days: u64,
    now: i64,
) -> Result<Seq<char>, Seq<char>> {
    if i64::MIN <= now + days * 86400 <= i64::MAX {
        Ok(session_token_of(sub, username, role, (now + days * 86400) as i64, secret))
    } else {
        Err("session length out of range"@)
    }
}

/// A session token for a user, made at time `now`, valid for `days` days.
pub fn create_token_at(id: &str, username: &str, role: &str, secret: &str, days: u64, now: i64) -> (t:
    Result<String, String>)
    ensures
        text_result(t) == token_result_spec(id@, username@, role@, secret@, days, now),
        t matches Ok(s) ==> session_claims_of(s@, secret@) == Some(
            (id@, username@, role@, (now + days * 86400) as i64),
        ),
{
    match session_expiry(now, days) {
        Some(exp) => encode_session_token(id, username, role, exp, secret),
        None => Err(String::from_str("session length out of range")),
    }
}

/// A session token for a user, valid for `days` days from the current time.
pub fn create_token(id: &str, username: &str, role: &str, secret: &str, days: u64) -> (t: Result<
    String,
    String,
>)
    ensures
        exists|now: i64|
            text_result(t) == #[trigger] token_result_spec(id@, username@, role@, secret@, days, now),
{
    let now: i64 = unix_now();
    create_token_at(id, username, role, secret, days, now)
}

/// Reads the claims of a session token signed with `secret`, if it is one.
pub fn read_token(token: &str, secret: &str) -> (c: Option<SessionClaims>)
    ensures
        match c {
            Some(x) => session_claims_of(token@, secret@) == Some(claims_view(x)),
            None => session_claims_of(token@, secret@) is None,
        },
{
    decode_session_token(token, secret)
}

} // verus!
