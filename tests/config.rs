use tu_planner::config::{Config, ServiceConfig, DEFAULT_BIND};
use tu_planner::locale::Locale;
use tu_planner::source::{ConfigError, ConfigField, RawTiss, TissConfig};

#[test]
fn service_default_bind() {
    assert_eq!(ServiceConfig::default().bind, "127.0.0.1:8485");
    assert_eq!(DEFAULT_BIND, "127.0.0.1:8485");
}

#[test]
fn config_from_raw_uses_defaults() {
    let raw = RawTiss::Text("https://example.org/cal?locale=de".to_string());
    let c = Config::from_raw(&raw, None).unwrap();
    assert_eq!(c.service.bind, "127.0.0.1:8485");
    assert_eq!(c.app.tiss, TissConfig::Link("https://example.org/cal?locale=de".to_string()));
    assert_eq!(c.app.tiss.locale(), Ok(Locale::de));
}

#[test]
fn config_from_raw_keeps_bind() {
    let raw = RawTiss::Text("https://example.org/cal?locale=de".to_string());
    let c = Config::from_raw(&raw, Some("0.0.0.0:80".to_string())).unwrap();
    assert_eq!(c.service.bind, "0.0.0.0:80");
}

#[test]
fn config_from_raw_reports_missing_token() {
    let raw = RawTiss::Table { endpoint: None, locale: Some("en".to_string()), token: None };
    assert_eq!(Config::from_raw(&raw, None), Err(ConfigError::MissingField(ConfigField::Token)));
}
