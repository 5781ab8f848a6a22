use marcador::config::{Config, ServerConfig, DEFAULT_HOST, DEFAULT_PORT, DEFAULT_ROOT};

#[test]
fn server_defaults() {
    let config = ServerConfig::default();
    assert_eq!(config.get_host(), "127.0.0.1");
    assert_eq!(config.get_port(), 8080);
    assert_eq!(config.get_root(), "/");
    assert_eq!(DEFAULT_HOST, "127.0.0.1");
    assert_eq!(DEFAULT_PORT, 8080);
    assert_eq!(DEFAULT_ROOT, "/");
    assert!(config.db.is_none());
}

#[test]
fn server_values_override_only_when_given() {
    let mut config = ServerConfig::default();
    config.set_db(&Some("a.db".to_string()));
    config.set_host(&Some("0.0.0.0".to_string()));
    config.set_port(&Some(9000));
    config.set_root(&Some("/api".to_string()));
    assert_eq!(config.db.as_deref(), Some("a.db"));
    assert_eq!(config.get_host(), "0.0.0.0");
    assert_eq!(config.get_port(), 9000);
    assert_eq!(config.get_root(), "/api");

    config.set_db(&None);
    config.set_host(&None);
    config.set_port(&None);
    config.set_root(&None);
    assert_eq!(config.db.as_deref(), Some("a.db"));
    assert_eq!(config.get_host(), "0.0.0.0");
    assert_eq!(config.get_port(), 9000);
    assert_eq!(config.get_root(), "/api");

    config.set_port(&Some(1));
    assert_eq!(config.get_port(), 1);
    assert_eq!(config.get_host(), "0.0.0.0");
}

#[test]
fn client_defaults_and_overrides() {
    let mut config = Config::default();
    assert!(config.host.is_none());
    assert!(config.db.is_none());
    assert!(config.server.is_some());

    config.set_host(&Some("http://example.org".to_string()));
    config.set_db(&None);
    assert_eq!(config.host.as_deref(), Some("http://example.org"));
    assert!(config.db.is_none());

    config.set_host(&None);
    config.set_db(&Some("b.db".to_string()));
    assert_eq!(config.host.as_deref(), Some("http://example.org"));
    assert_eq!(config.db.as_deref(), Some("b.db"));
}
