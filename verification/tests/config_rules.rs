use homefront::config::{
    default_false, default_session_days, default_theme, default_true, AppSection, AuthSection,
    Config, ConfigFile, FeaturesConfig, FeaturesSection, HaSection,
};

fn complete_file() -> ConfigFile {
    ConfigFile {
        app: Some(AppSection { name: Some("My Home".to_string()), theme: None, domain: None }),
        ha: Some(HaSection {
            url: Some("http://192.168.1.42:8123".to_string()),
            token: Some("abc".to_string()),
            verify_ssl: None,
        }),
        auth: Some(AuthSection { jwt_secret: Some("s3cret".to_string()), session_days: None }),
        features: None,
    }
}

#[test]
fn defaults_have_documented_values() {
    assert_eq!(default_theme(), "dark");
    assert_eq!(default_session_days(), 30);
    assert!(default_true());
    assert!(!default_false());
    let f = FeaturesConfig::default();
    assert!(!f.discovery_enabled);
    assert!(!f.guest_access);
}

#[test]
fn missing_optional_keys_take_defaults() {
    let cfg = Config::from_file(complete_file()).expect("complete file");
    assert_eq!(cfg.app.name, "My Home");
    assert_eq!(cfg.app.theme, "dark");
    assert_eq!(cfg.app.domain, "");
    assert_eq!(cfg.ha.url, "http://192.168.1.42:8123");
    assert_eq!(cfg.ha.token, "abc");
    assert!(!cfg.ha.verify_ssl);
    assert_eq!(cfg.auth.jwt_secret, "s3cret");
    assert_eq!(cfg.auth.session_days, 30);
    // no [features] table: both off
    assert!(!cfg.features.discovery_enabled);
    assert!(!cfg.features.guest_access);
}

#[test]
fn empty_features_table_turns_features_on() {
    let mut file = complete_file();
    file.features = Some(FeaturesSection { discovery_enabled: None, guest_access: Some(false) });
    let cfg = Config::from_file(file).unwrap();
    assert!(cfg.features.discovery_enabled);
    assert!(!cfg.features.guest_access);
}

#[test]
fn present_keys_are_kept() {
    let mut file = complete_file();
    file.app = Some(AppSection {
        name: Some("Flat".to_string()),
        theme: Some("light".to_string()),
        domain: Some("home.example.org".to_string()),
    });
    file.ha.as_mut().unwrap().verify_ssl = Some(true);
    file.auth.as_mut().unwrap().session_days = Some(7);
    let cfg = Config::from_file(file).unwrap();
    assert_eq!(cfg.app.theme, "light");
    assert_eq!(cfg.app.domain, "home.example.org");
    assert!(cfg.ha.verify_ssl);
    assert_eq!(cfg.auth.session_days, 7);
}

#[test]
fn missing_required_key_means_no_config() {
    let mut f = complete_file();
    f.app.as_mut().unwrap().name = None;
    assert!(Config::from_file(f).is_none());
    let mut f = complete_file();
    f.ha.as_mut().unwrap().token = None;
    assert!(Config::from_file(f).is_none());
    let mut f = complete_file();
    f.ha.as_mut().unwrap().url = None;
    assert!(Config::from_file(f).is_none());
    let mut f = complete_file();
    f.auth = None;
    assert!(Config::from_file(f).is_none());
    let mut f = complete_file();
    f.auth.as_mut().unwrap().jwt_secret = None;
    assert!(Config::from_file(f).is_none());
    let empty = ConfigFile { app: None, ha: None, auth: None, features: None };
    assert!(Config::from_file(empty).is_none());
}

#[test]
fn ha_config_clone_keeps_fields() {
    let cfg = Config::from_file(complete_file()).unwrap();
    let c = cfg.ha.clone();
    assert_eq!(c.url, cfg.ha.url);
    assert_eq!(c.token, cfg.ha.token);
    assert_eq!(c.verify_ssl, cfg.ha.verify_ssl);
}

#[test]
fn written_config_reads_back_the_same() {
    // the file written for a configuration holds every key
    let cfg = Config::from_file(complete_file()).unwrap();
    let written = ConfigFile {
        app: Some(AppSection {
            name: Some(cfg.app.name.clone()),
            theme: Some(cfg.app.theme.clone()),
            domain: Some(cfg.app.domain.clone()),
        }),
        ha: Some(HaSection {
            url: Some(cfg.ha.url.clone()),
            token: Some(cfg.ha.token.clone()),
            verify_ssl: Some(cfg.ha.verify_ssl),
        }),
        auth: Some(AuthSection {
            jwt_secret: Some(cfg.auth.jwt_secret.clone()),
            session_days: Some(cfg.auth.session_days),
        }),
        features: Some(FeaturesSection {
            discovery_enabled: Some(cfg.features.discovery_enabled),
            guest_access: Some(cfg.features.guest_access),
        }),
    };
    let back = Config::from_file(written).unwrap();
    assert_eq!(back.app.name, cfg.app.name);
    assert_eq!(back.app.theme, cfg.app.theme);
    assert_eq!(back.app.domain, cfg.app.domain);
    assert_eq!(back.ha.url, cfg.ha.url);
    assert_eq!(back.ha.token, cfg.ha.token);
    assert_eq!(back.ha.verify_ssl, cfg.ha.verify_ssl);
    assert_eq!(back.auth.jwt_secret, cfg.auth.jwt_secret);
    assert_eq!(back.auth.session_days, cfg.auth.session_days);
    assert_eq!(back.features.discovery_enabled, cfg.features.discovery_enabled);
    assert_eq!(back.features.guest_access, cfg.features.guest_access);
}
