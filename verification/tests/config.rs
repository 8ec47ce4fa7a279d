use netherconduit_core::connection::ConnectionState;
use netherconduit_core::player_connection::{step_for, Step};
use netherconduit_core::proxy_config::{ConfigError, ProxyConfig};

#[test]
fn config_defaults() {
    let config = ProxyConfig::from_settings(None, None).unwrap();
    assert_eq!(config.address(), "0.0.0.0");
    assert_eq!(config.port(), 25565);
    assert_eq!(config.default_server, "localhost");
    assert_eq!(config.default_server_port, 25566);
    assert_eq!(config.description, "{\"text\": \"Netherconduit Proxy\"}");
}

#[test]
fn config_given_server_and_port() {
    let config =
        ProxyConfig::from_settings(Some("mc.example.org".to_string()), Some("25570".to_string()))
            .unwrap();
    assert_eq!(config.default_server, "mc.example.org");
    assert_eq!(config.default_server_port, 25570);
    assert_eq!(config.port(), 25565);
}

#[test]
fn config_port_with_plus_sign() {
    let config = ProxyConfig::from_settings(None, Some("+80".to_string())).unwrap();
    assert_eq!(config.default_server_port, 80);
}

#[test]
fn config_largest_port() {
    let config = ProxyConfig::from_settings(None, Some("65535".to_string())).unwrap();
    assert_eq!(config.default_server_port, 65535);
}

#[test]
fn config_port_too_large() {
    let result = ProxyConfig::from_settings(None, Some("65536".to_string()));
    assert_eq!(result.unwrap_err(), ConfigError::InvalidPort("65536".to_string()));
}

#[test]
fn config_port_not_a_number() {
    let result = ProxyConfig::from_settings(Some("a".to_string()), Some("port".to_string()));
    assert_eq!(result.unwrap_err(), ConfigError::InvalidPort("port".to_string()));
}

#[test]
fn config_port_empty_or_signed() {
    assert!(ProxyConfig::from_settings(None, Some(String::new())).is_err());
    assert!(ProxyConfig::from_settings(None, Some("-1".to_string())).is_err());
    assert!(ProxyConfig::from_settings(None, Some("+".to_string())).is_err());
    assert!(ProxyConfig::from_settings(None, Some(" 80".to_string())).is_err());
}

#[test]
fn step_for_each_state() {
    assert_eq!(step_for(ConnectionState::Status, false), Step::AnswerStatus);
    assert_eq!(step_for(ConnectionState::Play, false), Step::Relay);
    assert_eq!(step_for(ConnectionState::Login, false), Step::ConnectBackend);
    assert_eq!(
        step_for(ConnectionState::Configuration, false),
        Step::Unsupported(ConnectionState::Configuration)
    );
}

#[test]
fn step_for_shut_down_connection() {
    assert_eq!(
        step_for(ConnectionState::Play, true),
        Step::Unsupported(ConnectionState::Closed)
    );
    assert_eq!(
        step_for(ConnectionState::Status, true),
        Step::Unsupported(ConnectionState::Closed)
    );
}
