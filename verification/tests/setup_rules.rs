use homefront::auth::hash_password;
use homefront::login::{check_password, check_user};
use homefront::setup::{
    api_root_url, connection_reply, discovered_instances, new_jwt_secret, new_user_id,
    owner_after_config, owner_after_config_now, owner_user, reached_outcome, setup_config, CompleteSetupRequest, ConnectionOutcome, SetupReply,
};

fn request() -> CompleteSetupRequest {
    CompleteSetupRequest {
        ha_url: "http://192.168.1.42:8123".into(),
        ha_token: "token".into(),
        owner_name: "Alex".into(),
        owner_username: "alex".into(),
        owner_password: "hunter2".into(),
        app_name: "My Home".into(),
        theme: "light".into(),
    }
}

fn is_uuid_v4(s: &str) -> bool {
    let c: Vec<char> = s.chars().collect();
    c.len() == 36
        && c.iter().enumerate().all(|(i, ch)| {
            if [8, 13, 18, 23].contains(&i) {
                *ch == '-'
            } else {
                ch.is_ascii_digit() || ('a'..='f').contains(ch)
            }
        })
        && c[14] == '4'
        && "89ab".contains(c[19])
}

#[test]
fn discovery_reports_one_instance() {
    let found = discovered_instances();
    assert_eq!(found.len(), 1);
    assert_eq!(found[0].name, "Home Assistant");
    assert_eq!(found[0].url, "http://192.168.1.42:8123");
}

#[test]
fn connection_test_answers() {
    assert_eq!(api_root_url("http://ha:8123"), "http://ha:8123/api/");
    let r = connection_reply(ConnectionOutcome::Reached { version: Some("2024.1.0".into()) });
    assert!(r.ok);
    assert_eq!(r.version.as_deref(), Some("2024.1.0"));
    assert!(r.error.is_none());
    match reached_outcome(br#"{"version": "2024.5.1", "message": "API running."}"#) {
        ConnectionOutcome::Reached { version } => assert_eq!(version.as_deref(), Some("2024.5.1")),
        _ => panic!("expected reached"),
    }
    match reached_outcome(b"not json") {
        ConnectionOutcome::Reached { version } => assert!(version.is_none()),
        _ => panic!("expected reached"),
    }
    match reached_outcome(br#"{"version": 5}"#) {
        ConnectionOutcome::Reached { version } => assert!(version.is_none()),
        _ => panic!("expected reached"),
    }
    let r = connection_reply(ConnectionOutcome::Refused { status: "401 Unauthorized".into() });
    assert!(!r.ok);
    assert!(r.version.is_none());
    assert_eq!(r.error.as_deref(), Some("HA returned status 401 Unauthorized"));
    let r = connection_reply(ConnectionOutcome::Failed { error: "timeout".into() });
    assert!(!r.ok);
    assert_eq!(r.error.as_deref(), Some("timeout"));
}

#[test]
fn fresh_ids_and_secrets() {
    let id = new_user_id();
    assert!(is_uuid_v4(&id));
    let secret = new_jwt_secret();
    assert_eq!(secret.len(), 72);
    assert!(is_uuid_v4(&secret[..36]));
    assert!(is_uuid_v4(&secret[36..]));
    assert_ne!(new_jwt_secret(), secret);
}

#[test]
fn wizard_config_and_owner() {
    let req = request();
    let cfg = setup_config(&req, "secret".into());
    assert_eq!(cfg.app.name, "My Home");
    assert_eq!(cfg.app.theme, "light");
    assert_eq!(cfg.app.domain, "");
    assert_eq!(cfg.ha.url, "http://192.168.1.42:8123");
    assert_eq!(cfg.ha.token, "token");
    assert!(!cfg.ha.verify_ssl);
    assert_eq!(cfg.auth.jwt_secret, "secret");
    assert_eq!(cfg.auth.session_days, 30);
    assert!(!cfg.features.discovery_enabled);
    assert!(!cfg.features.guest_access);
    let owner = owner_user("id-1".into(), &req, "hash".into(), 1_700_000_000);
    assert_eq!(owner.id, "id-1");
    assert_eq!(owner.username, "alex");
    assert_eq!(owner.display_name, "Alex");
    assert_eq!(owner.password_hash, "hash");
    assert_eq!(owner.role, "owner");
    assert!(owner.enabled);
    assert_eq!(owner.expires_at, None);
    assert_eq!(owner.created_at, 1_700_000_000);
    // the owner is never refused as expired
    assert!(check_user(Ok(Some(owner)), i64::MAX).is_ok());
}

#[test]
fn wizard_replies() {
    assert!(matches!(SetupReply::after_step(Ok(())), SetupReply::Done { restart_required: true }));
    match SetupReply::after_step(Err("disk full".into())) {
        SetupReply::Failed { error } => assert_eq!(error, "disk full"),
        _ => panic!("expected failure"),
    }
}

#[test]
fn owner_signs_in_with_the_wizard_password() {
    let req = request();
    let hash = hash_password(&req.owner_password).unwrap();
    let owner = owner_user(new_user_id(), &req, hash, 0);
    let owner = check_user(Ok(Some(owner)), 1_800_000_000).unwrap();
    assert_eq!(check_password(owner, "hunter2").unwrap().role, "owner");
    let hash = hash_password(&req.owner_password).unwrap();
    let owner = owner_user(new_user_id(), &req, hash, 0);
    assert!(check_password(owner, "hunter3").is_err());
}

#[test]
fn owner_account_after_config_write() {
    let req = request();
    match owner_after_config(Err("disk full".into()), &req, "id".into(), 1) {
        Err(SetupReply::Failed { error }) => assert_eq!(error, "disk full"),
        _ => panic!("expected failure"),
    }
    let owner = owner_after_config(Ok(()), &req, "id".into(), 7).ok().unwrap();
    assert_eq!(owner.id, "id");
    assert_eq!(owner.created_at, 7);
    assert_eq!(owner.role, "owner");
    assert!(owner.enabled && owner.expires_at.is_none());
    assert!(check_password(owner, "hunter2").is_ok());
    let owner = owner_after_config_now(Ok(()), &req).ok().unwrap();
    assert!(is_uuid_v4(&owner.id));
    assert!(matches!(owner_after_config_now(Err("x".into()), &req), Err(SetupReply::Failed { .. })));
}
