use server::{Components, ComponentsError, PoolSettings, PoolUsage, TelegramApi};

#[test]
fn default_settings_are_ten_connections_and_thirty_seconds() {
    let s = PoolSettings::defaults();
    assert_eq!(s.max_size, 10);
    assert_eq!(s.connection_timeout_ms, 30000);
}

#[test]
fn settings_with_positive_bounds_are_kept() {
    let s = PoolSettings::new(3, 250).unwrap();
    assert_eq!(s.max_size, 3);
    assert_eq!(s.connection_timeout_ms, 250);
}

#[test]
fn settings_with_zero_size_are_refused() {
    assert!(PoolSettings::new(0, 250).is_none());
}

#[test]
fn settings_with_zero_timeout_are_refused() {
    assert!(PoolSettings::new(4, 0).is_none());
}

#[test]
fn api_keeps_its_token() {
    let client = reqwest::blocking::Client::new();
    let api = TelegramApi::new(client, "123:abc".to_string());
    assert_eq!(api.token(), "123:abc");
}

#[test]
fn api_from_built_transport_keeps_its_token() {
    let client = reqwest::blocking::Client::builder().build();
    let api = TelegramApi::from_transport(client, "bot-token".to_string()).unwrap();
    assert_eq!(api.token(), "bot-token");
}

#[test]
fn malformed_database_url_fails_with_pool_init() {
    let settings = PoolSettings::new(2, 500).unwrap();
    let r = Components::with_settings("bot-token".to_string(), "this is not a url", settings);
    assert!(matches!(r, Err(ComponentsError::PoolInit(_))));
}

#[test]
fn unreachable_database_fails_with_pool_init() {
    let settings = PoolSettings::new(1, 300).unwrap();
    let r = Components::with_settings(
        "bot-token".to_string(),
        "postgres://nobody@127.0.0.1:1/none",
        settings,
    );
    assert!(matches!(r, Err(ComponentsError::PoolInit(_))));
}

#[test]
fn usage_counts_borrowed_connections() {
    let u = PoolUsage { connections: 7, idle_connections: 3 };
    assert_eq!(u.in_use(), 4);
}

#[test]
fn usage_of_idle_pool_has_none_in_use() {
    let u = PoolUsage { connections: 10, idle_connections: 10 };
    assert_eq!(u.in_use(), 0);
}

#[test]
fn default_settings_match_the_pool_builder_defaults() {
    let manager = r2d2_diesel::ConnectionManager::<diesel::pg::PgConnection>::new("postgres://nobody@127.0.0.1:1/none");
    let pool = r2d2::Pool::builder().build_unchecked(manager);
    let s = PoolSettings::defaults();
    assert_eq!(pool.max_size(), s.max_size);
    assert_eq!(pool.connection_timeout().as_millis(), s.connection_timeout_ms as u128);
}
