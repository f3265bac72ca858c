use block_metrics::config::{
    ConnectionConfig, DEFAULT_CALL_TIMEOUT_SECS, UTXO_SET_SCAN_TIMEOUT_SECS,
};
use block_metrics::error::{ConfigurationError, ConnectionError, Error, RpcError, RpcErrorKind, Setting};

fn some(s: &str) -> Option<String> {
    Some(s.to_string())
}

#[test]
fn missing_endpoint_is_a_configuration_error() {
    let result = ConnectionConfig::from_settings(None, some("alice"), some("secret"));
    assert_eq!(result, Err(ConfigurationError::Missing(Setting::Url)));
    assert!(Error::Configuration(result.unwrap_err()).is_fatal());
}

#[test]
fn missing_settings_are_reported_in_order() {
    let url = || some("http://127.0.0.1:8332");
    assert_eq!(
        ConnectionConfig::from_settings(None, None, None),
        Err(ConfigurationError::Missing(Setting::Url))
    );
    assert_eq!(
        ConnectionConfig::from_settings(None, None, some("p")),
        Err(ConfigurationError::Missing(Setting::Url))
    );
    assert_eq!(
        ConnectionConfig::from_settings(url(), None, None),
        Err(ConfigurationError::Missing(Setting::User))
    );
    assert_eq!(
        ConnectionConfig::from_settings(url(), None, some("p")),
        Err(ConfigurationError::Missing(Setting::User))
    );
    assert_eq!(
        ConnectionConfig::from_settings(url(), some("u"), None),
        Err(ConfigurationError::Missing(Setting::Password))
    );
}

#[test]
fn complete_settings_make_a_configuration() {
    let config =
        ConnectionConfig::from_settings(some("http://127.0.0.1:8332"), some("alice"), some("secret"))
            .unwrap();
    assert_eq!(config.url(), "http://127.0.0.1:8332");
    assert_eq!(config.user(), "alice");
    assert_eq!(config.password(), "secret");
    assert_eq!(config.timeout_secs(), 15);
    assert_eq!(config.timeout_secs(), DEFAULT_CALL_TIMEOUT_SECS);
}

#[test]
fn empty_settings_count_as_present() {
    let config = ConnectionConfig::from_settings(some(""), some(""), some("")).unwrap();
    assert_eq!(config.url(), "");
    assert_eq!(config.user(), "");
    assert_eq!(config.password(), "");
}

#[test]
fn with_timeout_changes_the_timeout_only() {
    let config = ConnectionConfig::from_settings(some("node:8332"), some("u"), some("p"))
        .unwrap()
        .with_timeout_secs(90);
    assert_eq!(config.timeout_secs(), 90);
    assert_eq!(config.url(), "node:8332");
    assert_eq!(config.user(), "u");
    assert_eq!(config.password(), "p");
}

#[test]
fn scan_timeout_is_eight_minutes() {
    assert_eq!(UTXO_SET_SCAN_TIMEOUT_SECS, 480);
    assert!(UTXO_SET_SCAN_TIMEOUT_SECS > DEFAULT_CALL_TIMEOUT_SECS);
}

#[test]
fn settings_are_read_from_their_variables() {
    assert_eq!(Setting::Url.variable(), "BITCOIN_RPC_URL");
    assert_eq!(Setting::User.variable(), "BITCOIN_RPC_USER");
    assert_eq!(Setting::Password.variable(), "BITCOIN_RPC_PASSWORD");
}

#[test]
fn only_a_failed_call_is_not_fatal() {
    for setting in [Setting::Url, Setting::User, Setting::Password] {
        assert!(Error::Configuration(ConfigurationError::Missing(setting)).is_fatal());
    }
    assert!(Error::Connection(ConnectionError { detail: "invalid rpc url".to_string() }).is_fatal());
    for kind in [
        RpcErrorKind::NotFound,
        RpcErrorKind::Timeout,
        RpcErrorKind::Auth,
        RpcErrorKind::Malformed,
        RpcErrorKind::Network,
        RpcErrorKind::Rejected,
    ] {
        assert!(!Error::Rpc(RpcError { kind, detail: None }).is_fatal());
    }
}
