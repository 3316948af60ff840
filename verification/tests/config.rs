use payment_service::config::{positive_env, server_port, AppConfig, ConfigValues};
use payment_service::decimal::parse_bounded;
use payment_service::errors::ConfigError;

fn values() -> ConfigValues {
    ConfigValues {
        server_host: None,
        server_port: None,
        database_url: Some("postgres://localhost/payments".to_owned()),
        database_max_connections: None,
        redis_url: Some("redis://localhost".to_owned()),
        redis_lock_ttl_seconds: None,
        idempotency_ttl_seconds: None,
        request_timeout_seconds: None,
        max_request_body_bytes: None,
    }
}

fn message(result: Result<AppConfig, ConfigError>) -> String {
    match result {
        Ok(_) => panic!("expected a configuration error"),
        Err(error) => error.message(),
    }
}

#[test]
fn defaults_apply_to_unset_variables() {
    let config = AppConfig::from_values(values()).unwrap();
    assert_eq!(config.server_host, "127.0.0.1");
    assert_eq!(config.server_port, 3000);
    assert_eq!(config.database_url, "postgres://localhost/payments");
    assert_eq!(config.database_max_connections, 10);
    assert_eq!(config.redis_url, "redis://localhost");
    assert_eq!(config.redis_lock_ttl_secs, 30);
    assert_eq!(config.idempotency_ttl_secs, 86_400);
    assert_eq!(config.request_timeout_secs, 10);
    assert_eq!(config.max_request_body_bytes, 16_384);
    assert_eq!(config.socket_addr_text(), "127.0.0.1:3000");
}

#[test]
fn set_variables_override_defaults() {
    let mut v = values();
    v.server_host = Some("0.0.0.0".to_owned());
    v.server_port = Some("+8080".to_owned());
    v.database_max_connections = Some("25".to_owned());
    v.redis_lock_ttl_seconds = Some("5".to_owned());
    v.max_request_body_bytes = Some("1024".to_owned());
    let config = AppConfig::from_values(v).unwrap();
    assert_eq!(config.server_port, 8080);
    assert_eq!(config.database_max_connections, 25);
    assert_eq!(config.redis_lock_ttl_secs, 5);
    assert_eq!(config.max_request_body_bytes, 1024);
    assert_eq!(config.socket_addr_text(), "0.0.0.0:8080");
}

#[test]
fn each_configuration_error_has_its_message() {
    let mut v = values();
    v.server_port = Some("70000".to_owned());
    assert_eq!(message(AppConfig::from_values(v)), "SERVER_PORT must be a valid u16");

    let mut v = values();
    v.database_url = None;
    assert_eq!(message(AppConfig::from_values(v)), "DATABASE_URL must be set");

    let mut v = values();
    v.redis_url = None;
    assert_eq!(message(AppConfig::from_values(v)), "REDIS_URL must be set");

    let mut v = values();
    v.database_max_connections = Some("0".to_owned());
    assert_eq!(
        message(AppConfig::from_values(v)),
        "DATABASE_MAX_CONNECTIONS must be a positive integer"
    );

    let mut v = values();
    v.idempotency_ttl_seconds = Some("-1".to_owned());
    assert_eq!(
        message(AppConfig::from_values(v)),
        "IDEMPOTENCY_TTL_SECONDS must be a positive integer"
    );

    assert_eq!(
        ConfigError::InvalidServerAddress.message(),
        "SERVER_HOST and SERVER_PORT must form a valid socket address"
    );
}

#[test]
fn the_first_problem_is_reported() {
    let mut v = values();
    v.server_port = Some("x".to_owned());
    v.database_url = None;
    v.request_timeout_seconds = Some("0".to_owned());
    assert!(matches!(AppConfig::from_values(v), Err(ConfigError::InvalidServerPort)));

    let mut v = values();
    v.redis_url = None;
    v.redis_lock_ttl_seconds = Some("0".to_owned());
    assert!(matches!(AppConfig::from_values(v), Err(ConfigError::MissingRedisUrl)));
}

#[test]
fn positive_settings_follow_unsigned_parsing() {
    assert_eq!(positive_env("X", &None, 7).unwrap(), 7);
    assert!(matches!(
        positive_env("X", &None, 0),
        Err(ConfigError::InvalidPositiveInteger("X"))
    ));
    assert_eq!(positive_env("X", &Some("18446744073709551615".to_owned()), 1).unwrap(), u64::MAX);
    assert!(positive_env("X", &Some("18446744073709551616".to_owned()), 1).is_err());
    assert!(positive_env("X", &Some(" 5".to_owned()), 1).is_err());
    assert!(positive_env("X", &Some("".to_owned()), 1).is_err());
    assert_eq!(server_port(&Some("0".to_owned())).unwrap(), 0);
    assert!(server_port(&Some("65536".to_owned())).is_err());
}

#[test]
fn decimal_parsing_agrees_with_std() {
    let samples = [
        "0", "7", "+7", "+", "-7", "", "007", "12a", "18446744073709551615",
        "18446744073709551616", "99999999999999999999999", "+0", "++1", "٣",
    ];
    for sample in samples {
        assert_eq!(parse_bounded(sample, u64::MAX), sample.parse::<u64>().ok(), "{sample}");
        assert_eq!(
            parse_bounded(sample, u16::MAX as u64),
            sample.parse::<u16>().ok().map(u64::from),
            "{sample}"
        );
    }
}
