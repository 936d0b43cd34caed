use user_registration::config::NatsConfig;
use user_registration::settings::Settings;

#[test]
fn new_config_carries_the_defaults() {
    let config = NatsConfig::new("nats://localhost:4222".to_owned());
    assert_eq!(config.url, "nats://localhost:4222");
    assert_eq!(config.connection_name, None);
    assert_eq!(config.auth_token, None);
    assert_eq!(config.username, None);
    assert_eq!(config.password, None);
    assert_eq!(config.connect_timeout, Some(5000));
    assert_eq!(config.reconnect_buffer_size, Some(8 * 1024 * 1024));
    assert_eq!(config.max_reconnects, Some(60));
    assert_eq!(config.reconnect_wait, Some(2000));
    assert!(config.jetstream_enabled);
    assert_eq!(config.domain, None);
}

#[test]
fn builders_override_one_field_each() {
    let config = NatsConfig::new("nats://localhost:4222".to_owned())
        .with_connection_name("svc".to_owned())
        .with_auth_token("token".to_owned())
        .with_credentials("user".to_owned(), "pass".to_owned())
        .with_connect_timeout(250)
        .with_reconnect_buffer_size(1024)
        .with_max_reconnects(3)
        .with_reconnect_wait(100)
        .with_jetstream(false)
        .with_domain("hub".to_owned());
    assert_eq!(config.url, "nats://localhost:4222");
    assert_eq!(config.connection_name, Some("svc".to_owned()));
    assert_eq!(config.auth_token, Some("token".to_owned()));
    assert_eq!(config.username, Some("user".to_owned()));
    assert_eq!(config.password, Some("pass".to_owned()));
    assert_eq!(config.connect_timeout, Some(250));
    assert_eq!(config.reconnect_buffer_size, Some(1024));
    assert_eq!(config.max_reconnects, Some(3));
    assert_eq!(config.reconnect_wait, Some(100));
    assert!(!config.jetstream_enabled);
    assert_eq!(config.domain, Some("hub".to_owned()));
}

#[test]
fn settings_hold_the_connection_strings() {
    let settings = Settings::new(
        "postgres://localhost/users".to_owned(),
        "nats://localhost:4222".to_owned(),
    );
    assert_eq!(settings.database, "postgres://localhost/users");
    assert_eq!(settings.nats, "nats://localhost:4222");
}
