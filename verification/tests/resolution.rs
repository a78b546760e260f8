use settings_loader::settings::{ConfigError, Settings};

fn env(pairs: &[(&str, &str)]) -> Vec<(String, String)> {
    pairs.iter().map(|(k, v)| (k.to_string(), v.to_string())).collect()
}

fn base_pairs() -> Vec<(&'static str, &'static str)> {
    vec![
        ("DATABASE__USERNAME", "svc"),
        ("DATABASE__PASSWORD", "SECRET-REDACTED"),
        ("DATABASE__HOST", "db.internal"),
        ("DATABASE__PORT", "5432"),
        ("DATABASE__DATABASE_NAME", "indexer"),
        ("DATABASE__MAX_CONNECTIONS", "16"),
        ("DATABASE__MIN_CONNECTIONS", "2"),
        ("ARCH_NODE__URL", "http://arch-node:9002"),
        ("REDIS__URL", "redis://redis:6379"),
    ]
}

fn base_env() -> Vec<(String, String)> {
    env(&base_pairs())
}

fn base_env_without(name: &str) -> Vec<(String, String)> {
    env(&base_pairs().into_iter().filter(|(k, _)| *k != name).collect::<Vec<_>>())
}

fn base_env_with(name: &str, value: &str) -> Vec<(String, String)> {
    let mut pairs = base_pairs();
    pairs.retain(|(k, _)| *k != name);
    pairs.push((name, value));
    env(&pairs)
}

#[test]
fn required_only_succeeds_with_defaults() {
    let s = Settings::resolve(&base_env()).unwrap();
    assert_eq!(s.database.username, "svc");
    assert_eq!(s.database.password, "SECRET-REDACTED");
    assert_eq!(s.database.host, "db.internal");
    assert_eq!(s.database.port, 5432u16);
    assert_eq!(s.database.database_name, "indexer");
    assert_eq!(s.database.max_connections, 16u32);
    assert_eq!(s.database.min_connections, 2u32);
    assert_eq!(s.arch_node.url, "http://arch-node:9002");
    assert_eq!(s.redis.url, "redis://redis:6379");
    assert_eq!(s.application.host, "0.0.0.0");
    assert_eq!(s.application.port, 8080u16);
    assert_eq!(s.application.cors_allow_origin, "*");
    assert_eq!(s.application.cors_allow_methods, "GET, POST, OPTIONS");
    assert_eq!(s.application.cors_allow_headers, "Content-Type, Authorization");
    assert_eq!(s.indexer.batch_size, 100usize);
    assert_eq!(s.indexer.concurrent_batches, 5usize);
}

#[test]
fn missing_redis_url_fails() {
    let r = Settings::resolve(&base_env_without("REDIS__URL"));
    assert_eq!(r, Err(ConfigError::MissingRequiredField("redis.url".to_string())));
}

#[test]
fn missing_each_required_field_fails_naming_it() {
    let cases = [
        ("DATABASE__USERNAME", "database.username"),
        ("DATABASE__PASSWORD", "database.password"),
        ("DATABASE__HOST", "database.host"),
        ("DATABASE__PORT", "database.port"),
        ("DATABASE__DATABASE_NAME", "database.database_name"),
        ("DATABASE__MAX_CONNECTIONS", "database.max_connections"),
        ("DATABASE__MIN_CONNECTIONS", "database.min_connections"),
        ("ARCH_NODE__URL", "arch_node.url"),
        ("REDIS__URL", "redis.url"),
    ];
    for (var, path) in cases {
        let r = Settings::resolve(&base_env_without(var));
        assert_eq!(r, Err(ConfigError::MissingRequiredField(path.to_string())));
        // Supplying the variable again (all else fixed) restores success.
        assert!(Settings::resolve(&base_env()).is_ok());
    }
}

#[test]
fn environment_overrides_every_default() {
    let mut pairs = base_pairs();
    pairs.extend([
        ("APPLICATION__HOST", "127.0.0.1"),
        ("APPLICATION__PORT", "9000"),
        ("APPLICATION__CORS_ALLOW_ORIGIN", "https://example.test"),
        ("APPLICATION__CORS_ALLOW_METHODS", "GET"),
        ("APPLICATION__CORS_ALLOW_HEADERS", "X-Custom"),
        ("INDEXER__BATCH_SIZE", "250"),
        ("INDEXER__CONCURRENT_BATCHES", "8"),
    ]);
    let s = Settings::resolve(&env(&pairs)).unwrap();
    assert_eq!(s.application.host, "127.0.0.1");
    assert_eq!(s.application.port, 9000u16);
    assert_eq!(s.application.cors_allow_origin, "https://example.test");
    assert_eq!(s.application.cors_allow_methods, "GET");
    assert_eq!(s.application.cors_allow_headers, "X-Custom");
    assert_eq!(s.indexer.batch_size, 250usize);
    assert_eq!(s.indexer.concurrent_batches, 8usize);
}

#[test]
fn resolution_is_idempotent() {
    let snapshot = base_env();
    let first = Settings::resolve(&snapshot).unwrap();
    let second = Settings::resolve(&snapshot).unwrap();
    assert_eq!(first, second);
}

#[test]
fn port_boundary_coercion() {
    let ok = Settings::resolve(&base_env_with("DATABASE__PORT", "65535")).unwrap();
    assert_eq!(ok.database.port, 65535u16);
    let over = Settings::resolve(&base_env_with("DATABASE__PORT", "65536"));
    assert_eq!(over, Err(ConfigError::TypeCoercionFailure("database.port".to_string())));
    let text = Settings::resolve(&base_env_with("DATABASE__PORT", "abc"));
    assert_eq!(text, Err(ConfigError::TypeCoercionFailure("database.port".to_string())));
}

#[test]
fn malformed_optional_port_fails() {
    let mut pairs = base_pairs();
    pairs.push(("APPLICATION__PORT", "abc"));
    let r = Settings::resolve(&env(&pairs));
    assert_eq!(r, Err(ConfigError::TypeCoercionFailure("application.port".to_string())));
}

#[test]
fn non_numeric_max_connections_fails() {
    let r = Settings::resolve(&base_env_with("DATABASE__MAX_CONNECTIONS", "ten"));
    assert_eq!(r, Err(ConfigError::TypeCoercionFailure("database.max_connections".to_string())));
}

#[test]
fn variable_names_match_case_insensitively() {
    let mixed = env(&[
        ("database__username", "svc"),
        ("Database__Password", "SECRET-REDACTED"),
        ("database__HOST", "db.internal"),
        ("dAtAbAsE__pOrT", "5432"),
        ("database__database_name", "indexer"),
        ("DATABASE__max_connections", "16"),
        ("database__MIN_CONNECTIONS", "2"),
        ("Arch_Node__Url", "http://arch-node:9002"),
        ("redis__url", "redis://redis:6379"),
    ]);
    let s1 = Settings::resolve(&mixed).unwrap();
    let s2 = Settings::resolve(&base_env()).unwrap();
    assert_eq!(s1, s2);
}

#[test]
fn first_problem_in_schema_order_wins() {
    let mut snapshot = base_env_without("DATABASE__USERNAME");
    snapshot.retain(|(k, _)| k != "REDIS__URL");
    let r = Settings::resolve(&snapshot);
    assert_eq!(r, Err(ConfigError::MissingRequiredField("database.username".to_string())));
}

#[test]
fn coercion_failure_beats_later_missing_field() {
    let mut snapshot = base_env_with("DATABASE__PORT", "none");
    snapshot.retain(|(k, _)| k != "REDIS__URL");
    let r = Settings::resolve(&snapshot);
    assert_eq!(r, Err(ConfigError::TypeCoercionFailure("database.port".to_string())));
}

#[test]
fn unmatched_variables_are_ignored() {
    let mut pairs = base_pairs();
    pairs.extend([("PATH", "/usr/bin"), ("HOME", "/root"), ("DATABASE__EXTRA", "x")]);
    let s = Settings::resolve(&env(&pairs)).unwrap();
    assert_eq!(s, Settings::resolve(&base_env()).unwrap());
}

#[test]
fn empty_string_is_a_valid_string_value() {
    let s = Settings::resolve(&base_env_with("DATABASE__PASSWORD", "")).unwrap();
    assert_eq!(s.database.password, "");
}

#[test]
fn numeric_edge_values() {
    let zero = Settings::resolve(&base_env_with("DATABASE__MIN_CONNECTIONS", "0")).unwrap();
    assert_eq!(zero.database.min_connections, 0u32);
    let padded = Settings::resolve(&base_env_with("DATABASE__MAX_CONNECTIONS", "007")).unwrap();
    assert_eq!(padded.database.max_connections, 7u32);
    let empty = Settings::resolve(&base_env_with("DATABASE__PORT", ""));
    assert_eq!(empty, Err(ConfigError::TypeCoercionFailure("database.port".to_string())));
    let max_u32 = Settings::resolve(&base_env_with("DATABASE__MAX_CONNECTIONS", "4294967295"))
        .unwrap();
    assert_eq!(max_u32.database.max_connections, u32::MAX);
    let over_u32 = Settings::resolve(&base_env_with("DATABASE__MAX_CONNECTIONS", "4294967296"));
    assert_eq!(
        over_u32,
        Err(ConfigError::TypeCoercionFailure("database.max_connections".to_string()))
    );
    let signed = Settings::resolve(&base_env_with("DATABASE__PORT", "-1"));
    assert_eq!(signed, Err(ConfigError::TypeCoercionFailure("database.port".to_string())));
}

#[test]
fn first_matching_entry_wins_among_case_duplicates() {
    let mut snapshot = base_env();
    snapshot.push(("redis__url".to_string(), "redis://shadow:6379".to_string()));
    let s = Settings::resolve(&snapshot).unwrap();
    assert_eq!(s.redis.url, "redis://redis:6379");
}

#[test]
fn cors_default_functions_return_registered_defaults() {
    assert_eq!(settings_loader::settings::default_cors_origin(), "*");
    assert_eq!(settings_loader::settings::default_cors_methods(), "GET, POST, OPTIONS");
    assert_eq!(
        settings_loader::settings::default_cors_headers(),
        "Content-Type, Authorization"
    );
}
