use std::time::Duration;

use recomp::postgres::{
    connect_overrides, ConnectOverride,
    default_acquire_timeout, default_idle_timeout, default_max_connections, default_max_lifetime,
    Config, ConfigBuilder, ConfigBuilderError, NonZeroCount, Password, DEFAULT_MIN_CONNECTIONS,
};

fn test_builder() -> ConfigBuilder {
    Config::builder()
}

fn build_config(builder: ConfigBuilder) -> Config {
    match builder.build() {
        Ok(config) => config,
        Err(error) => panic!("test config must build: {}", error.message()),
    }
}

fn non_zero_u32(value: u32) -> NonZeroCount {
    match NonZeroCount::new(value) {
        Some(value) => value,
        None => panic!("test value must be non-zero"),
    }
}

#[test]
fn build_without_connection_overrides_uses_no_fake_connection_values() {
    let config = build_config(test_builder());

    assert_eq!(config.host(), None, "config must not invent a Postgres host");
    assert_eq!(config.port(), None, "config must not invent a Postgres port");
    assert_eq!(config.username(), None, "config must not invent a Postgres username");
    assert_eq!(
        config.password().map(Password::as_str),
        None,
        "config must not invent a Postgres password"
    );
    assert_eq!(config.database(), None, "config must not invent a Postgres database");
    assert_eq!(
        config.application_name(),
        None,
        "config must not invent an application name"
    );
    assert_eq!(
        config.statement_cache_capacity(),
        None,
        "config must not invent a statement cache capacity"
    );
}

#[test]
fn build_uses_default_pool_values() {
    let config = build_config(test_builder());

    assert_eq!(
        config.acquire_timeout(),
        default_acquire_timeout(),
        "config must default the acquire timeout"
    );
    assert_eq!(
        config.idle_timeout(),
        default_idle_timeout(),
        "config must default the idle timeout"
    );
    assert_eq!(
        config.max_lifetime(),
        default_max_lifetime(),
        "config must default the max lifetime"
    );
    assert_eq!(
        config.max_connections(),
        default_max_connections(),
        "config must default the max connections"
    );
    assert_eq!(
        config.min_connections(),
        DEFAULT_MIN_CONNECTIONS,
        "config must default the min connections"
    );
}

#[test]
fn build_uses_overridden_connection_values() {
    let host = "localhost";
    let port = 15432;
    let username = "recomp";
    let password = "";
    let database = "recomp_development";
    let application_name = "recomp";
    let config = build_config(
        test_builder()
            .with_host(host)
            .with_port(port)
            .with_username(username)
            .with_password(password)
            .with_database(database)
            .with_application_name(application_name),
    );

    assert_eq!(config.host(), Some(host), "config must preserve the supplied Postgres host");
    assert_eq!(config.port(), Some(port), "config must preserve the supplied Postgres port");
    assert_eq!(
        config.username(),
        Some(username),
        "config must preserve the supplied Postgres username"
    );
    assert_eq!(
        config.password().map(Password::as_str),
        Some(password),
        "config must preserve an explicitly supplied empty Postgres password"
    );
    assert_eq!(
        config.database(),
        Some(database),
        "config must preserve the supplied Postgres database"
    );
    assert_eq!(
        config.application_name(),
        Some(application_name),
        "config must preserve the supplied application name"
    );
}

#[test]
fn build_uses_overridden_pool_values() {
    let acquire_timeout = Duration::from_secs(2);
    let idle_timeout = Duration::from_secs(3);
    let max_lifetime = Duration::from_secs(4);
    let max_connections = non_zero_u32(20);
    let min_connections = 5;
    let statement_cache_capacity = 256;
    let config = build_config(
        test_builder()
            .with_acquire_timeout(acquire_timeout)
            .with_idle_timeout(idle_timeout)
            .with_max_lifetime(max_lifetime)
            .with_max_connections(max_connections)
            .with_min_connections(min_connections)
            .with_statement_cache_capacity(statement_cache_capacity),
    );

    assert_eq!(
        config.acquire_timeout(),
        acquire_timeout,
        "config must preserve the supplied acquire timeout"
    );
    assert_eq!(
        config.idle_timeout(),
        idle_timeout,
        "config must preserve the supplied idle timeout"
    );
    assert_eq!(
        config.max_lifetime(),
        max_lifetime,
        "config must preserve the supplied max lifetime"
    );
    assert_eq!(
        config.max_connections(),
        max_connections,
        "config must preserve the supplied max connections"
    );
    assert_eq!(
        config.min_connections(),
        min_connections,
        "config must preserve the supplied min connections"
    );
    assert_eq!(
        config.statement_cache_capacity(),
        Some(statement_cache_capacity),
        "config must preserve the supplied statement cache capacity"
    );
}

#[test]
fn debug_redacts_password() {
    let config = build_config(test_builder().with_password("secret-password"));
    let debug = format!("{config:?}");

    assert!(
        debug.contains("<redacted>"),
        "debug output must show that the password was redacted: {debug}"
    );
    assert!(
        !debug.contains("secret-password"),
        "debug output must not contain the Postgres password: {debug}"
    );
}

#[test]
fn build_rejects_min_connections_over_max_connections() {
    let max_connections = non_zero_u32(2);
    let min_connections = 3;
    let error = match test_builder()
        .with_max_connections(max_connections)
        .with_min_connections(min_connections)
        .build()
    {
        Ok(config) => panic!(
            "min connections above max connections must be rejected, got config: {config:?}"
        ),
        Err(error) => error,
    };

    assert_eq!(
        error,
        ConfigBuilderError::MinConnectionsExceedsMaxConnections {
            min_connections,
            max_connections,
        },
        "builder must report the invalid pool size relationship"
    );
}

#[test]
fn default_pool_values_are_the_documented_durations() {
    assert_eq!(default_acquire_timeout(), Duration::from_secs(5));
    assert_eq!(default_idle_timeout(), Duration::from_secs(5 * 60));
    assert_eq!(default_max_lifetime(), Duration::from_secs(30 * 60));
    assert_eq!(default_max_connections().get(), 10);
    assert_eq!(DEFAULT_MIN_CONNECTIONS, 0);
}

#[test]
fn non_zero_count_rejects_zero() {
    assert!(NonZeroCount::new(0).is_none());
    assert_eq!(NonZeroCount::new(7).map(NonZeroCount::get), Some(7));
}

#[test]
fn build_accepts_min_equal_to_max() {
    let config = build_config(
        test_builder()
            .with_max_connections(non_zero_u32(4))
            .with_min_connections(4),
    );
    assert_eq!(config.min_connections(), 4);
    assert_eq!(config.max_connections().get(), 4);
}

#[test]
fn build_rejects_min_over_default_max() {
    let error = test_builder().with_min_connections(11).build().unwrap_err();
    assert_eq!(
        error,
        ConfigBuilderError::MinConnectionsExceedsMaxConnections {
            min_connections: 11,
            max_connections: default_max_connections(),
        }
    );
    assert_eq!(
        error.message(),
        "Postgres min connections (11) cannot exceed max connections (10)"
    );
}

#[test]
fn later_override_replaces_earlier_one() {
    let config = build_config(test_builder().with_host("a").with_host("b").with_port(1).with_port(2));
    assert_eq!(config.host(), Some("b"));
    assert_eq!(config.port(), Some(2));
}

#[test]
fn builder_debug_redacts_password() {
    let builder = test_builder().with_password("hunter2");
    let debug = format!("{builder:?}");
    assert!(debug.contains("<redacted>"));
    assert!(!debug.contains("hunter2"));
    assert_eq!(Password::new("hunter2").as_str(), "hunter2");
}

#[test]
fn new_builder_equals_default_builder() {
    assert_eq!(ConfigBuilder::new(), ConfigBuilder::default());
    assert_eq!(Config::builder(), ConfigBuilder::new());
}

#[test]
fn connect_overrides_list_only_the_set_connection_values_in_order() {
    assert!(connect_overrides(&build_config(test_builder())).is_empty());
    let config = build_config(
        test_builder()
            .with_statement_cache_capacity(8)
            .with_database("db")
            .with_password("")
            .with_host("h")
            .with_acquire_timeout(Duration::from_secs(1)),
    );
    assert_eq!(
        connect_overrides(&config),
        vec![
            ConnectOverride::Host("h".to_string()),
            ConnectOverride::Password(String::new()),
            ConnectOverride::Database("db".to_string()),
            ConnectOverride::StatementCacheCapacity(8),
        ]
    );
    let config = build_config(test_builder().with_port(1).with_username("u").with_application_name("a"));
    assert_eq!(
        connect_overrides(&config),
        vec![
            ConnectOverride::Port(1),
            ConnectOverride::Username("u".to_string()),
            ConnectOverride::ApplicationName("a".to_string()),
        ]
    );
}

#[test]
fn connection_counts_debug_as_plain_numbers() {
    assert_eq!(format!("{:?}", non_zero_u32(10)), "10");
    let error = test_builder().with_min_connections(11).build().unwrap_err();
    assert_eq!(
        format!("{error:?}"),
        "MinConnectionsExceedsMaxConnections { min_connections: 11, max_connections: 10 }"
    );
}
