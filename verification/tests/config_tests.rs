use portfolio_api::config::{AwsSecrets, ConfigError, ConfigSource, ConfigStruct, SecretsError};

fn full() -> ConfigSource {
    ConfigSource {
        http_server_host: Some("0.0.0.0".to_string()),
        http_server_port: Some(8080),
        http_server_cache_ttl: Some(300),
        http_server_allowed_origins: Some(vec!["https://a.example".to_string()]),
        logging_level: Some("info".to_string()),
        logging_file: Some("api.log".to_string()),
        logging_directory: Some("logs".to_string()),
        assets_cdn_base_url: Some("https://cdn.example.com".to_string()),
    }
}

#[test]
fn load_with_every_setting() {
    let c = ConfigStruct::load(full()).unwrap();
    assert_eq!(c.http_server.host, "0.0.0.0");
    assert_eq!(c.http_server.port, 8080);
    assert_eq!(c.http_server.cache_ttl_seconds, 300);
    assert_eq!(c.http_server.allowed_origins, vec!["https://a.example".to_string()]);
    assert_eq!(c.logging.level, "info");
    assert_eq!(c.logging.file, "api.log");
    assert_eq!(c.logging.directory, "logs");
    assert_eq!(c.assets.cdn_base_url, "https://cdn.example.com");
}

#[test]
fn allowed_origins_default_to_none() {
    let mut s = full();
    s.http_server_allowed_origins = None;
    let c = ConfigStruct::load(s).unwrap();
    assert!(c.http_server.allowed_origins.is_empty());
}

fn missing_key(s: ConfigSource) -> &'static str {
    match ConfigStruct::load(s) {
        Err(ConfigError::MissingSetting(k)) => k,
        Ok(_) => panic!("loaded without a required setting"),
    }
}

#[test]
fn each_required_setting_is_reported() {
    let mut s = full();
    s.http_server_host = None;
    assert_eq!(missing_key(s), "http_server.host");
    let mut s = full();
    s.http_server_port = None;
    assert_eq!(missing_key(s), "http_server.port");
    let mut s = full();
    s.http_server_cache_ttl = None;
    assert_eq!(missing_key(s), "http_server.cache_ttl");
    let mut s = full();
    s.logging_level = None;
    assert_eq!(missing_key(s), "logging.level");
    let mut s = full();
    s.logging_file = None;
    assert_eq!(missing_key(s), "logging.file");
    let mut s = full();
    s.logging_directory = None;
    assert_eq!(missing_key(s), "logging.directory");
    let mut s = full();
    s.assets_cdn_base_url = None;
    assert_eq!(missing_key(s), "assets.cdn_base_url");
}

#[test]
fn first_missing_setting_wins() {
    let mut s = full();
    s.logging_file = None;
    s.http_server_port = None;
    assert_eq!(missing_key(s), "http_server.port");
}

#[test]
fn secret_payload_must_be_present() {
    assert_eq!(AwsSecrets::secret_payload(Some("{}".to_string())).unwrap(), "{}");
    assert!(matches!(AwsSecrets::secret_payload(None), Err(SecretsError::EmptyPayload)));
}

use portfolio_api::log_level::{file_log_level, FileLogLevel};

#[test]
fn file_log_levels() {
    assert_eq!(file_log_level("debug"), FileLogLevel::Debug);
    assert_eq!(file_log_level("DeBuG"), FileLogLevel::Debug);
    assert_eq!(file_log_level("INFO"), FileLogLevel::Info);
    assert_eq!(file_log_level("warn"), FileLogLevel::Warn);
    assert_eq!(file_log_level("Error"), FileLogLevel::Error);
    assert_eq!(file_log_level("trace"), FileLogLevel::Info);
    assert_eq!(file_log_level(""), FileLogLevel::Info);
    assert_eq!(file_log_level("warning"), FileLogLevel::Info);
}

use portfolio_api::log_level::{completion_event, CompletionLevel};

#[test]
fn request_completion_events() {
    assert_eq!(completion_event(500), (CompletionLevel::Warn, "request completed with server error"));
    assert_eq!(completion_event(599), (CompletionLevel::Warn, "request completed with server error"));
    assert_eq!(completion_event(404), (CompletionLevel::Info, "request rejected"));
    assert_eq!(completion_event(400), (CompletionLevel::Info, "request rejected"));
    assert_eq!(completion_event(200), (CompletionLevel::Info, "request completed"));
    assert_eq!(completion_event(399), (CompletionLevel::Info, "request completed"));
    assert_eq!(completion_event(600), (CompletionLevel::Info, "request completed"));
}
