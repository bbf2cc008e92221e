use homefront::auth::{create_token, create_token_at, hash_password, read_token, verify_password};
use homefront::config::{AppConfig, AuthConfig, Config, FeaturesConfig, HaConfig};
use homefront::login::{
    bearer_token, check_password, check_user, check_user_now, login_at, login_now, session_at,
    session_expiry, session_settings, session_user_at, LoginError, LoginReply, SessionSettings,
    User,
};

fn user(expires_at: Option<i64>) -> User {
    User {
        id: "u1".into(),
        username: "guest".into(),
        display_name: "Guest".into(),
        password_hash: "$2b$12$abc".into(),
        role: "guest".into(),
        enabled: true,
        expires_at,
        created_at: 0,
    }
}

#[test]
fn missing_or_failed_lookup_is_invalid_credentials() {
    assert_eq!(check_user(Ok(None), 100).err(), Some(LoginError::InvalidCredentials));
    assert_eq!(check_user(Err("db down".into()), 100).err(), Some(LoginError::InvalidCredentials));
    assert_eq!(check_user_now(Ok(None)).err(), Some(LoginError::InvalidCredentials));
    assert_eq!(LoginError::InvalidCredentials.message(), "invalid credentials");
    assert_eq!(LoginError::GuestExpired.message(), "guest access has expired");
}

#[test]
fn guest_expiry_is_strict() {
    assert_eq!(check_user(Ok(Some(user(Some(99)))), 100).err(), Some(LoginError::GuestExpired));
    assert_eq!(check_user(Ok(Some(user(Some(100)))), 100).unwrap().id, "u1");
    assert_eq!(check_user(Ok(Some(user(Some(101)))), 100).unwrap().id, "u1");
    assert_eq!(check_user(Ok(Some(user(None))), i64::MAX).unwrap().id, "u1");
    assert_eq!(check_user_now(Ok(Some(user(None)))).unwrap().id, "u1");
    assert_eq!(check_user_now(Ok(Some(user(Some(1))))).err(), Some(LoginError::GuestExpired));
}

#[test]
fn disabled_user_is_invalid_credentials() {
    let mut u = user(None);
    u.enabled = false;
    assert_eq!(check_user(Ok(Some(u)), 0).err(), Some(LoginError::InvalidCredentials));
    let mut u = user(Some(1));
    u.enabled = false;
    assert_eq!(check_user(Ok(Some(u)), 100).err(), Some(LoginError::InvalidCredentials));
}

#[test]
fn wrong_password_is_invalid_credentials() {
    let hash = hash_password("right horse").unwrap();
    assert_ne!(hash, "right horse");
    assert!(verify_password("right horse", &hash));
    assert!(!verify_password("wrong horse", &hash));
    let mut u = user(None);
    u.password_hash = hash.clone();
    assert_eq!(check_password(u, "wrong horse").err(), Some(LoginError::InvalidCredentials));
    let mut u = user(None);
    u.password_hash = hash;
    assert_eq!(check_password(u, "right horse").unwrap().username, "guest");
    // a stored hash that bcrypt cannot read accepts nothing
    assert_eq!(check_password(user(None), "anything").err(), Some(LoginError::InvalidCredentials));
}

#[test]
fn session_settings_follow_config() {
    let s = session_settings(&None);
    assert_eq!(s.secret, "");
    assert_eq!(s.days, 30);
    let cfg = Config {
        app: AppConfig { name: "H".into(), theme: "dark".into(), domain: String::new() },
        ha: HaConfig { url: "u".into(), token: "t".into(), verify_ssl: false },
        auth: AuthConfig { jwt_secret: "abc".into(), session_days: 7 },
        features: FeaturesConfig::default(),
    };
    let s = session_settings(&Some(cfg));
    assert_eq!(s.secret, "abc");
    assert_eq!(s.days, 7);
}

#[test]
fn session_expiry_adds_whole_days() {
    assert_eq!(session_expiry(1_700_000_000, 30), Some(1_700_000_000 + 30 * 86400));
    assert_eq!(session_expiry(0, 0), Some(0));
    assert_eq!(session_expiry(i64::MAX, 1), None);
    assert_eq!(session_expiry(i64::MIN, u64::MAX), None);
    assert_eq!(session_expiry(-86400, 1), Some(0));
}

#[test]
fn login_replies() {
    match LoginReply::refused(LoginError::GuestExpired) {
        LoginReply::Failure { error } => assert_eq!(error, "guest access has expired"),
        _ => panic!("expected failure"),
    }
    match LoginReply::issued(user(None), Ok("jwt".into())) {
        LoginReply::Success { token, role, display_name } => {
            assert_eq!(token, "jwt");
            assert_eq!(role, "guest");
            assert_eq!(display_name, "Guest");
        }
        _ => panic!("expected success"),
    }
    match LoginReply::issued(user(None), Err("bad key".into())) {
        LoginReply::Failure { error } => assert_eq!(error, "bad key"),
        _ => panic!("expected failure"),
    }
}

#[test]
fn session_token_carries_the_claims() {
    let before = chrono::Utc::now().timestamp();
    let token = create_token("u1", "alex", "owner", "k3y", 30).unwrap();
    let after = chrono::Utc::now().timestamp();
    assert_eq!(token.split('.').count(), 3);
    let data = jsonwebtoken::decode::<serde_json::Value>(
        &token,
        &jsonwebtoken::DecodingKey::from_secret(b"k3y"),
        &jsonwebtoken::Validation::default(),
    )
    .unwrap();
    assert_eq!(data.claims["sub"], "u1");
    assert_eq!(data.claims["username"], "alex");
    assert_eq!(data.claims["role"], "owner");
    let exp = data.claims["exp"].as_i64().unwrap();
    assert!(before + 30 * 86400 <= exp && exp <= after + 30 * 86400);
    assert!(jsonwebtoken::decode::<serde_json::Value>(
        &token,
        &jsonwebtoken::DecodingKey::from_secret(b"other"),
        &jsonwebtoken::Validation::default(),
    )
    .is_err());
    assert!(create_token("u1", "alex", "owner", "k3y", u64::MAX).is_err());
}

fn settings() -> SessionSettings {
    SessionSettings { secret: "k3y".into(), days: 30 }
}

#[test]
fn token_made_at_a_given_time() {
    let t = create_token_at("u1", "alex", "owner", "k3y", 2, 1_000).unwrap();
    let c = read_token(&t, "k3y").unwrap();
    assert_eq!(c.sub, "u1");
    assert_eq!(c.username, "alex");
    assert_eq!(c.role, "owner");
    assert_eq!(c.exp, 1_000 + 2 * 86400);
    assert_eq!(t, create_token_at("u1", "alex", "owner", "k3y", 2, 1_000).unwrap());
    assert!(read_token(&t, "other").is_none());
    assert!(read_token("not.a.token", "k3y").is_none());
    assert_eq!(
        create_token_at("u1", "alex", "owner", "k3y", u64::MAX, 0).err().as_deref(),
        Some("session length out of range")
    );
}

fn owner_with_password(pw: &str) -> User {
    let mut u = user(None);
    u.role = "owner".into();
    u.password_hash = hash_password(pw).unwrap();
    u
}

#[test]
fn whole_login_decision() {
    match login_at(Ok(None), "pw", &settings(), 5) {
        LoginReply::Failure { error } => assert_eq!(error, "invalid credentials"),
        _ => panic!("expected failure"),
    }
    match login_at(Ok(Some(user(Some(1)))), "pw", &settings(), 5) {
        LoginReply::Failure { error } => assert_eq!(error, "guest access has expired"),
        _ => panic!("expected failure"),
    }
    match login_at(Ok(Some(owner_with_password("pw"))), "nope", &settings(), 5) {
        LoginReply::Failure { error } => assert_eq!(error, "invalid credentials"),
        _ => panic!("expected failure"),
    }
    match login_at(Ok(Some(owner_with_password("pw"))), "pw", &settings(), 5) {
        LoginReply::Success { token, role, display_name } => {
            assert_eq!(role, "owner");
            assert_eq!(display_name, "Guest");
            assert_eq!(token, create_token_at("u1", "guest", "owner", "k3y", 30, 5).unwrap());
        }
        _ => panic!("expected success"),
    }
    match login_at(
        Ok(Some(owner_with_password("pw"))),
        "pw",
        &SessionSettings { secret: "k".into(), days: u64::MAX },
        5,
    ) {
        LoginReply::Failure { error } => assert_eq!(error, "session length out of range"),
        _ => panic!("expected failure"),
    }
    assert!(matches!(login_now(Ok(Some(owner_with_password("pw"))), "pw", &settings()), LoginReply::Success { .. }));
}

#[test]
fn sessions_follow_tokens_and_users() {
    assert_eq!(bearer_token("Bearer abc").as_deref(), Some("abc"));
    assert_eq!(bearer_token("bearer abc"), None);
    assert_eq!(bearer_token("Bearer"), None);
    let t = create_token_at("u1", "guest", "guest", "k3y", 1, 100).unwrap();
    let header = format!("Bearer {}", t);
    let c = session_at(Some(&header), "k3y", 100).unwrap();
    assert_eq!(c.sub, "u1");
    assert!(session_at(Some(&header), "k3y", 100 + 86400).is_none());
    assert!(session_at(Some(&header), "other", 100).is_none());
    assert!(session_at(Some(&t), "k3y", 100).is_none());
    assert!(session_at(None, "k3y", 100).is_none());
    assert!(session_user_at(&c, Ok(Some(user(None))), 100).is_some());
    let mut off = user(None);
    off.enabled = false;
    assert!(session_user_at(&c, Ok(Some(off)), 100).is_none());
    assert!(session_user_at(&c, Ok(Some(user(Some(99)))), 100).is_none());
    let mut other = user(None);
    other.id = "u2".into();
    assert!(session_user_at(&c, Ok(Some(other)), 100).is_none());
    assert!(session_user_at(&c, Ok(None), 100).is_none());
    assert!(session_user_at(&c, Err("db".into()), 100).is_none());
}
