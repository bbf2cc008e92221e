use homefront::api::{
    all_states, api_groups, ha_config_for, is_setup_mode, listen_port, lookup_state,
    service_payload, ApiGroup, LookupError, ServiceReply,
};
use homefront::config::{AppConfig, AuthConfig, Config, FeaturesConfig, HaConfig};
use homefront::ha::{EntityCache, EntityState};
use std::collections::HashMap;

fn config() -> Config {
    Config {
        app: AppConfig { name: "Home".into(), theme: "dark".into(), domain: String::new() },
        ha: HaConfig { url: "http://ha:8123".into(), token: "tok".into(), verify_ssl: true },
        auth: AuthConfig { jwt_secret: "k".into(), session_days: 30 },
        features: FeaturesConfig::default(),
    }
}

fn state(id: &str) -> EntityState {
    EntityState {
        entity_id: id.into(),
        state: "on".into(),
        attributes: HashMap::new(),
        last_changed: String::new(),
    }
}

#[test]
fn setup_mode_serves_only_the_wizard() {
    assert!(is_setup_mode(&None));
    assert!(!is_setup_mode(&Some(config())));
    assert_eq!(api_groups(true), vec![ApiGroup::Health, ApiGroup::Setup]);
    assert_eq!(
        api_groups(false),
        vec![ApiGroup::Health, ApiGroup::Auth, ApiGroup::Entities, ApiGroup::Ws]
    );
}

#[test]
fn ha_client_only_with_config() {
    assert!(ha_config_for(&None).is_none());
    let h = ha_config_for(&Some(config())).unwrap();
    assert_eq!(h.url, "http://ha:8123");
    assert_eq!(h.token, "tok");
    assert!(h.verify_ssl);
}

#[test]
fn port_from_environment() {
    assert_eq!(listen_port(None), 3000);
    assert_eq!(listen_port(Some("8080".into())), 8080);
    assert_eq!(listen_port(Some("+81".into())), 81);
    assert_eq!(listen_port(Some("70000".into())), 3000);
    assert_eq!(listen_port(Some("http".into())), 3000);
    assert_eq!(listen_port(Some("".into())), 3000);
}

#[test]
fn entity_endpoints() {
    assert!(all_states(None).is_empty());
    assert_eq!(lookup_state(None, &"a.b".to_string()).err(), Some(LookupError::NotConnected));
    let mut cache = EntityCache::new();
    cache.insert(state("light.a"));
    cache.insert(state("light.b"));
    assert_eq!(all_states(Some(&cache)).len(), 2);
    assert_eq!(lookup_state(Some(&cache), &"light.a".to_string()).unwrap().entity_id, "light.a");
    assert_eq!(lookup_state(Some(&cache), &"light.c".to_string()).err(), Some(LookupError::NotFound));
    assert_eq!(LookupError::NotConnected.message(), "HA not connected");
    assert_eq!(LookupError::NotFound.message(), "entity not found");
}

#[test]
fn service_call_answers() {
    match ServiceReply::not_connected() {
        ServiceReply::Failed { error } => assert_eq!(error, "HA not connected"),
        ServiceReply::Done => panic!("expected failure"),
    }
    assert!(matches!(ServiceReply::from_call(Ok(())), ServiceReply::Done));
    match ServiceReply::from_call(Err("timed out".into())) {
        ServiceReply::Failed { error } => assert_eq!(error, "timed out"),
        ServiceReply::Done => panic!("expected failure"),
    }
    let data = serde_json::Value::Bool(true);
    assert_eq!(service_payload(Some(data.clone())), data);
    assert_eq!(service_payload(None), serde_json::Value::Object(serde_json::Map::new()));
}
