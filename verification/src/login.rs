//! The decisions of `POST /api/auth/login`: which user rows may sign in,
//! and what the endpoint answers.
use vstd::prelude::*;
use crate::auth::{
    bcrypt_accepts, claims_view, create_token_at, read_token, session_claims_of, text_result,
    token_result_spec, verify_password, SessionClaims,
};
use crate::text::strip_prefix;
use crate::config::Config;

verus! {

/// A row of the users table.
pub struct User {
    pub id: String,
    pub username: String,
    pub display_name: String,
    pub password_hash: String,
    /// "owner" | "guest"
    pub role: String,
    pub enabled: bool,
    /// Unix timestamp after which a guest may no longer sign in; `None` never expires.
    pub expires_at: Option<i64>,
    pub created_at: i64,
}

/// Why a login is refused.
#[derive(PartialEq, Eq, Structural, Clone, Copy, Debug)]
pub enum LoginError {
    /// No user of that name, the user is disabled, the lookup failed, or the
    /// password is wrong.
    InvalidCredentials,
    /// The user's access expired before now.
    GuestExpired,
}

/// The error text the endpoint answers with.
pub open spec fn login_error_text(e: LoginError) -> Seq<char> {
    match e {
        LoginError::InvalidCredentials => "invalid credentials"@,
        LoginError::GuestExpired => "guest access has expired"@,
    }
}

impl LoginError {
    /// The error text the endpoint answers with.
    pub fn message(&self) -> (m: String)
        ensures
            m@ == login_error_text(*self),
    {
        match self {
            LoginError::InvalidCredentials => String::from_str("invalid credentials"),
            LoginError::GuestExpired => String::from_str("guest access has expired"),
        }
    }
}

/// Whether `u`'s access ended before `now`: only a user with an expiry
/// strictly earlier than `now` is expired.
pub open spec fn expired(u: User, now: i64) -> bool {
    u.expires_at matches Some(exp) && exp < now
}

/// What the login makes of the users-table lookup at time `now`: a missing
/// row, a failed lookup or a disabled user is invalid credentials, an
/// expired user is refused as such, and any other user may go on.
pub open spec fn check_user_spec(lookup: Result<Option<User>, String>, now: i64) -> Result<
    User,
    LoginError,
> {
    match lookup {
        Ok(Some(u)) => if !u.enabled {
            Err(LoginError::InvalidCredentials)
        } else if expired(u, now) {
            Err(LoginError::GuestExpired)
        } else {
            Ok(u)
        },
        _ => Err(LoginError::InvalidCredentials),
    }
}

/// Judges the row found for the requested user name (or the lookup's
/// failure) at time `now`.
pub fn check_user(lookup: Result<Option<User>, String>, now: i64) -> (r: Result<User, LoginError>)
    ensures
        r == check_user_spec(lookup, now),
{
    match lookup {
        Ok(Some(u)) => {
            if !u.enabled {
                return Err(LoginError::InvalidCredentials);
            }
            let is_expired = match u.expires_at {
                Some(exp) => exp < now,
                None => false,
            };
            if is_expired {
                Err(LoginError::GuestExpired)
            } else {
                Ok(u)
            }
        },
        _ => Err(LoginError::InvalidCredentials),
    }
}

/// The current Unix time in seconds, as `chrono::Utc::now().timestamp()`
/// reads it. It depends on the clock, so nothing is stated of it.
#[verifier::external_body]
pub(crate) fn unix_now() -> i64 {
    chrono::Utc::now().timestamp()
}

/// Judges the lookup against the current time. Whatever the clock says,
/// a missing row, a failed lookup or a disabled user is refused and an
/// enabled user without expiry is let through; an enabled user with an
/// expiry is let through or refused as expired.
pub fn check_user_now(lookup: Result<Option<User>, String>) -> (r: Result<User, LoginError>)
    ensures
        exists|now: i64| r == check_user_spec(lookup, now),
        !(lookup matches Ok(Some(_))) ==> r == Err::<User, LoginError>(
            LoginError::InvalidCredentials,
        ),
        lookup matches Ok(Some(u)) ==> (!u.enabled ==> r == Err::<User, LoginError>(
            LoginError::InvalidCredentials,
        )),
        lookup matches Ok(Some(u)) ==> (u.enabled && u.expires_at is None ==> r == Ok::<
            User,
            LoginError,
        >(u)),
        lookup matches Ok(Some(u)) ==> (u.enabled ==> r == Ok::<User, LoginError>(u) || (r
            == Err::<User, LoginError>(LoginError::GuestExpired) && u.expires_at is Some)),
{
    let now: i64 = unix_now();
    check_user(lookup, now)
}

/// What the login makes of the submitted password: the user when bcrypt
/// accepts it against the stored hash, else invalid credentials.
pub open spec fn password_check_spec(user: User, password: Seq<char>) -> Result<User, LoginError> {
    if bcrypt_accepts(password, user.password_hash@) {
        Ok(user)
    } else {
        Err(LoginError::InvalidCredentials)
    }
}

/// Checks the submitted password against the user's stored hash; a wrong
/// password reads as invalid credentials.
pub fn check_password(user: User, password: &str) -> (r: Result<User, LoginError>)
    ensures
        r == password_check_spec(user, password@),
{
    if verify_password(password, user.password_hash.as_str()) {
        Ok(user)
    } else {
        Err(LoginError::InvalidCredentials)
    }
}

/// What a session token is signed with and how long it lasts.
pub struct SessionSettings {
    pub secret: String,
    pub days: u64,
}

/// The session settings of the configuration; without one, an empty
/// secret and 30 days.
pub fn session_settings(cfg: &Option<Config>) -> (s: SessionSettings)
    ensures
        cfg matches Some(c) ==> s.secret@ == c.auth.jwt_secret@ && s.days == c.auth.session_days,
        cfg is None ==> s.secret@ == Seq::<char>::empty() && s.days == 30,
{
    match cfg {
        Some(c) => SessionSettings { secret: c.auth.jwt_secret.clone(), days: c.auth.session_days },
        None => SessionSettings { secret: String::new(), days: 30 },
    }
}


/// When a session started at `now` and lasting `days` days ends, if that
/// instant fits in an `i64`.
pub fn session_expiry(now: i64, days: u64) -> (end: Option<i64>)
    ensures
        end is Some <==> i64::MIN <= now + days * 86400 <= i64::MAX,
        end matches Some(e) ==> e == now + days * 86400,
{
    let d: i128 = days as i128;
    assert(d * 86400 <= 0xffff_ffff_ffff_ffff * 86400) by (nonlinear_arith)
        requires
            0 <= d <= 0xffff_ffff_ffff_ffff,
    ;
    let end: i128 = (now as i128) + d * 86400;
    if end > (i64::MAX as i128) || end < (i64::MIN as i128) {
        None
    } else {
        Some(end as i64)
    }
}

/// The answer of the login endpoint.
pub enum LoginReply {
    Success { token: String, role: String, display_name: String },
    Failure { error: String },
}

impl LoginReply {
    /// The answer to a refused login.
    pub fn refused(err: LoginError) -> (r: Self)
        ensures
            r matches LoginReply::Failure { error } && error@ == login_error_text(err),
    {
        LoginReply::Failure { error: err.message() }
    }

    /// The answer once a token was made for `user` (or making it failed).
    pub fn issued(user: User, token: Result<String, String>) -> (r: Self)
        ensures
            match token {
                Ok(t) => r == (LoginReply::Success {
                    token: t,
                    role: user.role,
                    display_name: user.display_name,
                }),
                Err(e) => r == (LoginReply::Failure { error: e }),
            },
    {
        match token {
            Ok(t) => LoginReply::Success { token: t, role: user.role, display_name: user.display_name },
            Err(e) => LoginReply::Failure { error: e },
        }
    }
}

/// What the login endpoint answers at time `now`, for the row found for
/// the user name (or the lookup's failure), the submitted password and the
/// session settings: a refusal when the user may not sign in or bcrypt
/// rejects the password, else the token made for the user (or why none
/// could be made) with the user's role and display name.
pub open spec fn login_answers(
    r: LoginReply,
    lookup: Result<Option<User>, String>,
    password: Seq<char>,
    secret: Seq<char>,
    days: u64,
    now: i64,
) -> bool {
    match check_user_spec(lookup, now) {
        Err(e) => r matches LoginReply::Failure { error } && error@ == login_error_text(e),
        Ok(u) => if !bcrypt_accepts(password, u.password_hash@) {
            r matches LoginReply::Failure { error } && error@ == login_error_text(
                LoginError::InvalidCredentials,
            )
        } else {
            match token_result_spec(u.id@, u.username@, u.role@, secret, days, now) {
                Ok(t) => r matches LoginReply::Success { token, role, display_name } && token@
                    == t && role == u.role && display_name == u.display_name,
                Err(e) => r matches LoginReply::Failure { error } && error@ == e,
            }
        },
    }
}

/// The whole login decision at time `now`.
pub fn login_at(
    lookup: Result<Option<User>, String>,
    password: &str,
    settings: &SessionSettings,
    now: i64,
) -> (r: LoginReply)
    ensures
        login_answers(r, lookup, password@, settings.secret@, settings.days, now),
{
    let user = match check_user(lookup, now) {
        Ok(u) => u,
        Err(e) => {
            return LoginReply::refused(e);
        },
    };
    let user = match check_password(user, password) {
        Ok(u) => u,
        Err(e) => {
            return LoginReply::refused(e);
        },
    };
    let token = create_token_at(
        user.id.as_str(),
        user.username.as_str(),
        user.role.as_str(),
        settings.secret.as_str(),
        settings.days,
        now,
    );
    LoginReply::issued(user, token)
}

/// The whole login decision at the current time.
pub fn login_now(lookup: Result<Option<User>, String>, password: &str, settings: &SessionSettings) -> (r:
    LoginReply)
    ensures
        exists|now: i64| #[trigger] login_answers(r, lookup, password@, settings.secret@, settings.days, now),
{
    let now: i64 = unix_now();
    login_at(lookup, password, settings, now)
}

/// The token in an `Authorization` header of the form `Bearer <token>`.
pub open spec fn bearer_spec(header: Seq<char>) -> Option<Seq<char>> {
    if header.len() >= 7 && header.take(7) == "Bearer "@ {
        Some(header.skip(7))
    } else {
        None
    }
}

/// Reads the token out of an `Authorization` header.
pub fn bearer_token(header: &str) -> (t: Option<String>)
    ensures
        match t {
            Some(s) => bearer_spec(header@) == Some(s@),
            None => bearer_spec(header@) is None,
        },
{
    proof {
        reveal_strlit("Bearer ");
    }
    strip_prefix(header, "Bearer ")
}

/// A header's text, if the request has the header.
pub open spec fn header_text(header: Option<&str>) -> Option<Seq<char>> {
    match header {
        Some(h) => Some(h@),
        None => None,
    }
}

/// The claims of a request's session at time `now`: the request must carry
/// a bearer token that decodes under `secret` and whose expiry is still
/// ahead (a token is no longer accepted from its `exp` on).
pub open spec fn session_claims_spec(header: Option<Seq<char>>, secret: Seq<char>, now: i64) -> Option<
    (Seq<char>, Seq<char>, Seq<char>, i64),
> {
    match header {
        None => None,
        Some(h) => match bearer_spec(h) {
            None => None,
            Some(t) => match session_claims_of(t, secret) {
                Some(c) => if now < c.3 {
                    Some(c)
                } else {
                    None
                },
                None => None,
            },
        },
    }
}

/// The session claims of a request, given its `Authorization` header.
pub fn session_at(header: Option<&str>, secret: &str, now: i64) -> (c: Option<SessionClaims>)
    ensures
        match c {
            Some(x) => session_claims_spec(header_text(header), secret@, now) == Some(
                claims_view(x),
            ),
            None => session_claims_spec(header_text(header), secret@, now) is None,
        },
{
    let h = match header {
        Some(h) => h,
        None => {
            return None;
        },
    };
    let token = match bearer_token(h) {
        Some(t) => t,
        None => {
            return None;
        },
    };
    match read_token(token.as_str(), secret) {
        Some(c) => if now < c.exp {
            Some(c)
        } else {
            None
        },
        None => None,
    }
}

/// The session claims of a request at the current time.
pub fn session_now(header: Option<&str>, secret: &str) -> (c: Option<SessionClaims>)
    ensures
        exists|now: i64|
            match c {
                Some(x) => #[trigger] session_claims_spec(header_text(header), secret@, now)
                    == Some(claims_view(x)),
                None => session_claims_spec(header_text(header), secret@, now) is None,
            },
{
    let now: i64 = unix_now();
    session_at(header, secret, now)
}

/// Whether the session's user may still use the dashboard at `now`: the
/// row found for the session's subject is that user, enabled and not
/// expired. A disabled or expired guest is turned away at once.
pub open spec fn session_user_ok(sub: Seq<char>, lookup: Result<Option<User>, String>, now: i64) -> bool {
    match lookup {
        Ok(Some(u)) => u.id@ == sub && u.enabled && !expired(u, now),
        _ => false,
    }
}

/// Judges the user row found for a session's subject at time `now`.
pub fn session_user_at(claims: &SessionClaims, lookup: Result<Option<User>, String>, now: i64) -> (r:
    Option<User>)
    ensures
        r is Some <==> session_user_ok(claims.sub@, lookup, now),
        r matches Some(u) ==> lookup == Ok::<Option<User>, String>(Some(u)),
{
    match lookup {
        Ok(Some(u)) => {
            if u.id == claims.sub && u.enabled && !(match u.expires_at {
                Some(exp) => exp < now,
                None => false,
            }) {
                Some(u)
            } else {
                None
            }
        },
        _ => None,
    }
}

/// Judges the user row found for a session's subject at the current time.
pub fn session_user_now(claims: &SessionClaims, lookup: Result<Option<User>, String>) -> (r: Option<User>)
    ensures
        exists|now: i64| (r is Some <==> #[trigger] session_user_ok(claims.sub@, lookup, now)),
        r matches Some(u) ==> lookup == Ok::<Option<User>, String>(Some(u)),
{
    let now: i64 = unix_now();
    session_user_at(claims, lookup, now)
}

} // verus!
