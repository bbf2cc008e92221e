use homefront::config::HaConfig;
use homefront::ha::{EntityCache, EntityState, STATE_UPDATE_CAPACITY};
use std::collections::HashMap;

fn state(id: &str, s: &str) -> EntityState {
    let mut attributes = HashMap::new();
    attributes.insert("friendly_name".to_string(), serde_json::Value::String(id.to_string()));
    EntityState {
        entity_id: id.to_string(),
        state: s.to_string(),
        attributes,
        last_changed: "2024-01-01T00:00:00Z".to_string(),
    }
}

fn ha(url: &str) -> HaConfig {
    HaConfig { url: url.to_string(), token: "t".to_string(), verify_ssl: false }
}

#[test]
fn read_after_write_gives_the_written_state() {
    let mut cache = EntityCache::new();
    assert!(cache.get(&"light.kitchen".to_string()).is_none());
    cache.insert(state("light.kitchen", "on"));
    let got = cache.get(&"light.kitchen".to_string()).unwrap();
    assert_eq!(got.state, "on");
    assert_eq!(
        got.attributes.get("friendly_name"),
        Some(&serde_json::Value::String("light.kitchen".to_string()))
    );
    cache.insert(state("light.kitchen", "off"));
    assert_eq!(cache.get(&"light.kitchen".to_string()).unwrap().state, "off");
    assert_eq!(cache.values().len(), 1);
}

#[test]
fn refresh_keeps_last_state_and_unnamed_entities() {
    let mut cache = EntityCache::new();
    cache.insert(state("sensor.temp", "20"));
    cache.insert_all(vec![
        state("light.hall", "on"),
        state("switch.fan", "off"),
        state("light.hall", "off"),
    ]);
    assert_eq!(cache.get(&"light.hall".to_string()).unwrap().state, "off");
    assert_eq!(cache.get(&"switch.fan".to_string()).unwrap().state, "off");
    assert_eq!(cache.get(&"sensor.temp".to_string()).unwrap().state, "20");
    let mut ids: Vec<String> = cache.values().iter().map(|e| e.entity_id.clone()).collect();
    ids.sort();
    assert_eq!(ids, vec!["light.hall", "sensor.temp", "switch.fan"]);
}

#[test]
fn ha_urls() {
    let c = ha("http://192.168.1.42:8123");
    assert_eq!(c.states_url(), "http://192.168.1.42:8123/api/states");
    assert_eq!(
        c.service_url("light", "turn_on"),
        "http://192.168.1.42:8123/api/services/light/turn_on"
    );
    assert_eq!(c.websocket_url(), "ws://192.168.1.42:8123/api/websocket");
    assert_eq!(ha("https://ha.example.org").websocket_url(), "wss://ha.example.org/api/websocket");
    assert_eq!(ha("ha.local:8123").websocket_url(), "ha.local:8123/api/websocket");
    assert_eq!(STATE_UPDATE_CAPACITY, 256);
}
