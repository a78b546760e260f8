//! Resolution: the deterministic rules by which defaults and environment
//! overlay combine into one fully typed [`Settings`] object.
//!
//! For every schema field, the environment value (matched case-insensitively
//! under the `__` nesting separator) wins over the field's registered
//! default; a field with neither fails resolution. Fields are examined in
//! schema order — database, application, arch node, redis, indexer, each in
//! declaration order — and the first problem found aborts the whole load.

use vstd::prelude::*;

use crate::coerce::{dec_value, is_dec, parse_u16, parse_u32, parse_usize};
use crate::settings::{
    ApplicationSettings, ApplicationSettingsView, ArchNodeSettings, ArchNodeSettingsView,
    ConfigError, ConfigErrorView, DatabaseSettings, DatabaseSettingsView, IndexerSettings,
    IndexerSettingsView, RedisSettings, RedisSettingsView, Settings, SettingsView,
};
use crate::snapshot::{lookup, lookup_exec};

verus! {

/// The outcome of resolving one field or one section, seen mathematically:
/// the view of the value, or the view of the error.
pub open spec fn res_view<T: View>(r: Result<T, ConfigError>) -> Result<T::V, ConfigErrorView> {
    match r {
        Ok(v) => Ok(v@),
        Err(e) => Err(e@),
    }
}

/// A required string field: the environment value, or a missing-field error
/// naming the field's dotted path.
pub open spec fn spec_required_string(
    env: Seq<(String, String)>,
    key: Seq<char>,
    path: Seq<char>,
) -> Result<Seq<char>, ConfigErrorView> {
    match lookup(env, key) {
        Some(v) => Ok(v),
        None => Err(ConfigErrorView::MissingRequiredField(path)),
    }
}

/// A required 16-bit field: the coerced environment value, a coercion error
/// when the raw value is no decimal numeral within `u16` range, or a
/// missing-field error when the environment has no value at all.
pub open spec fn spec_required_u16(
    env: Seq<(String, String)>,
    key: Seq<char>,
    path: Seq<char>,
) -> Result<u16, ConfigErrorView> {
    match lookup(env, key) {
        Some(v) => if is_dec(v) && dec_value(v) <= u16::MAX {
            Ok(dec_value(v) as u16)
        } else {
            Err(ConfigErrorView::TypeCoercionFailure(path))
        },
        None => Err(ConfigErrorView::MissingRequiredField(path)),
    }
}

/// A required 32-bit field, coerced as [`spec_required_u16`] is.
pub open spec fn spec_required_u32(
    env: Seq<(String, String)>,
    key: Seq<char>,
    path: Seq<char>,
) -> Result<u32, ConfigErrorView> {
    match lookup(env, key) {
        Some(v) => if is_dec(v) && dec_value(v) <= u32::MAX {
            Ok(dec_value(v) as u32)
        } else {
            Err(ConfigErrorView::TypeCoercionFailure(path))
        },
        None => Err(ConfigErrorView::MissingRequiredField(path)),
    }
}

/// An optional string field: the environment value when one is supplied,
/// else the registered default. Never fails.
pub open spec fn spec_optional_string(
    env: Seq<(String, String)>,
    key: Seq<char>,
    default: Seq<char>,
) -> Seq<char> {
    match lookup(env, key) {
        Some(v) => v,
        None => default,
    }
}

/// An optional 16-bit field: the coerced environment value when one is
/// supplied (a malformed one still fails), else the registered default.
pub open spec fn spec_optional_u16(
    env: Seq<(String, String)>,
    key: Seq<char>,
    path: Seq<char>,
    default: u16,
) -> Result<u16, ConfigErrorView> {
    match lookup(env, key) {
        Some(v) => if is_dec(v) && dec_value(v) <= u16::MAX {
            Ok(dec_value(v) as u16)
        } else {
            Err(ConfigErrorView::TypeCoercionFailure(path))
        },
        None => Ok(default),
    }
}

/// An optional pointer-sized field, resolved as [`spec_optional_u16`] is.
pub open spec fn spec_optional_usize(
    env: Seq<(String, String)>,
    key: Seq<char>,
    path: Seq<char>,
    default: usize,
) -> Result<usize, ConfigErrorView> {
    match lookup(env, key) {
        Some(v) => if is_dec(v) && dec_value(v) <= usize::MAX {
            Ok(dec_value(v) as usize)
        } else {
            Err(ConfigErrorView::TypeCoercionFailure(path))
        },
        None => Ok(default),
    }
}

/// The database section: every field required, fields examined in
/// declaration order.
pub open spec fn spec_database(env: Seq<(String, String)>) -> Result<
    DatabaseSettingsView,
    ConfigErrorView,
> {
    match spec_required_string(env, "database__username"@, "database.username"@) {
        Err(e) => Err(e),
        Ok(username) => match spec_required_string(env, "database__password"@, "database.password"@) {
            Err(e) => Err(e),
            Ok(password) => match spec_required_string(env, "database__host"@, "database.host"@) {
                Err(e) => Err(e),
                Ok(host) => match spec_required_u16(env, "database__port"@, "database.port"@) {
                    Err(e) => Err(e),
                    Ok(port) => match spec_required_string(
                        env,
                        "database__database_name"@,
                        "database.database_name"@,
                    ) {
                        Err(e) => Err(e),
                        Ok(database_name) => match spec_required_u32(
                            env,
                            "database__max_connections"@,
                            "database.max_connections"@,
                        ) {
                            Err(e) => Err(e),
                            Ok(max_connections) => match spec_required_u32(
                                env,
                                "database__min_connections"@,
                                "database.min_connections"@,
                            ) {
                                Err(e) => Err(e),
                                Ok(min_connections) => Ok(DatabaseSettingsView {
                                    username,
                                    password,
                                    host,
                                    port,
                                    database_name,
                                    max_connections,
                                    min_connections,
                                }),
                            },
                        },
                    },
                },
            },
        },
    }
}

/// The application section: every field has a default, so only a malformed
/// port can fail it.
pub open spec fn spec_application(env: Seq<(String, String)>) -> Result<
    ApplicationSettingsView,
    ConfigErrorView,
> {
    match spec_optional_u16(env, "application__port"@, "application.port"@, 8080) {
        Err(e) => Err(e),
        Ok(port) => Ok(ApplicationSettingsView {
            port,
            host: spec_optional_string(env, "application__host"@, "0.0.0.0"@),
            cors_allow_origin: spec_optional_string(env, "application__cors_allow_origin"@, "*"@),
            cors_allow_methods: spec_optional_string(
                env,
                "application__cors_allow_methods"@,
                "GET, POST, OPTIONS"@,
            ),
            cors_allow_headers: spec_optional_string(
                env,
                "application__cors_allow_headers"@,
                "Content-Type, Authorization"@,
            ),
        }),
    }
}

/// The arch node section: one required URL.
pub open spec fn spec_arch_node(env: Seq<(String, String)>) -> Result<
    ArchNodeSettingsView,
    ConfigErrorView,
> {
    match spec_required_string(env, "arch_node__url"@, "arch_node.url"@) {
        Err(e) => Err(e),
        Ok(url) => Ok(ArchNodeSettingsView { url }),
    }
}

/// The redis section: one required URL.
pub open spec fn spec_redis(env: Seq<(String, String)>) -> Result<
    RedisSettingsView,
    ConfigErrorView,
> {
    match spec_required_string(env, "redis__url"@, "redis.url"@) {
        Err(e) => Err(e),
        Ok(url) => Ok(RedisSettingsView { url }),
    }
}

/// The indexer section: both fields have defaults.
pub open spec fn spec_indexer(env: Seq<(String, String)>) -> Result<
    IndexerSettingsView,
    ConfigErrorView,
> {
    match spec_optional_usize(env, "indexer__batch_size"@, "indexer.batch_size"@, 100) {
        Err(e) => Err(e),
        Ok(batch_size) => match spec_optional_usize(
            env,
            "indexer__concurrent_batches"@,
            "indexer.concurrent_batches"@,
            5,
        ) {
            Err(e) => Err(e),
            Ok(concurrent_batches) => Ok(IndexerSettingsView { batch_size, concurrent_batches }),
        },
    }
}

/// Full resolution of a snapshot: all five sections in schema order, the
/// first failing section's error, or the assembled settings.
pub open spec fn spec_resolve(env: Seq<(String, String)>) -> Result<
    SettingsView,
    ConfigErrorView,
> {
    match spec_database(env) {
        Err(e) => Err(e),
        Ok(database) => match spec_application(env) {
            Err(e) => Err(e),
            Ok(application) => match spec_arch_node(env) {
                Err(e) => Err(e),
                Ok(arch_node) => match spec_redis(env) {
                    Err(e) => Err(e),
                    Ok(redis) => match spec_indexer(env) {
                        Err(e) => Err(e),
                        Ok(indexer) => Ok(SettingsView {
                            database,
                            application,
                            arch_node,
                            redis,
                            indexer,
                        }),
                    },
                },
            },
        },
    }
}

/// Resolves a required string field from the snapshot.
fn required_string(env: &Vec<(String, String)>, key: &str, path: &str) -> (r: Result<
    String,
    ConfigError,
>)
    ensures
        res_view(r) == spec_required_string(env@, key@, path@),
{
    match lookup_exec(env, key) {
        Some(v) => Ok(v),
        None => Err(ConfigError::MissingRequiredField(String::from_str(path))),
    }
}

/// Resolves a required 16-bit field from the snapshot.
fn required_u16(env: &Vec<(String, String)>, key: &str, path: &str) -> (r: Result<
    u16,
    ConfigError,
>)
    ensures
        res_view(r) == spec_required_u16(env@, key@, path@),
{
    match lookup_exec(env, key) {
        Some(v) => match parse_u16(v.as_str()) {
            Some(x) => Ok(x),
            None => Err(ConfigError::TypeCoercionFailure(String::from_str(path))),
        },
        None => Err(ConfigError::MissingRequiredField(String::from_str(path))),
    }
}

/// Resolves a required 32-bit field from the snapshot.
fn required_u32(env: &Vec<(String, String)>, key: &str, path: &str) -> (r: Result<
    u32,
    ConfigError,
>)
    ensures
        res_view(r) == spec_required_u32(env@, key@, path@),
{
    match lookup_exec(env, key) {
        Some(v) => match parse_u32(v.as_str()) {
            Some(x) => Ok(x),
            None => Err(ConfigError::TypeCoercionFailure(String::from_str(path))),
        },
        None => Err(ConfigError::MissingRequiredField(String::from_str(path))),
    }
}

/// Resolves an optional string field: environment value or default.
fn optional_string(env: &Vec<(String, String)>, key: &str, default: &str) -> (r: String)
    ensures
        r@ == spec_optional_string(env@, key@, default@),
{
    match lookup_exec(env, key) {
        Some(v) => v,
        None => String::from_str(default),
    }
}

/// Resolves an optional 16-bit field: coerced environment value or default.
fn optional_u16(env: &Vec<(String, String)>, key: &str, path: &str, default: u16) -> (r: Result<
    u16,
    ConfigError,
>)
    ensures
        res_view(r) == spec_optional_u16(env@, key@, path@, default),
{
    match lookup_exec(env, key) {
        Some(v) => match parse_u16(v.as_str()) {
            Some(x) => Ok(x),
            None => Err(ConfigError::TypeCoercionFailure(String::from_str(path))),
        },
        None => Ok(default),
    }
}

/// Resolves an optional pointer-sized field: coerced environment value or
/// default.
fn optional_usize(env: &Vec<(String, String)>, key: &str, path: &str, default: usize) -> (r:
    Result<usize, ConfigError>)
    ensures
        res_view(r) == spec_optional_usize(env@, key@, path@, default),
{
    match lookup_exec(env, key) {
        Some(v) => match parse_usize(v.as_str()) {
            Some(x) => Ok(x),
            None => Err(ConfigError::TypeCoercionFailure(String::from_str(path))),
        },
        None => Ok(default),
    }
}

/// Resolves the database section.
fn resolve_database(env: &Vec<(String, String)>) -> (r: Result<DatabaseSettings, ConfigError>)
    ensures
        res_view(r) == spec_database(env@),
{
    let username = match required_string(env, "database__username", "database.username") {
        Ok(v) => v,
        Err(e) => return Err(e),
    };
    let password = match required_string(env, "database__password", "database.password") {
        Ok(v) => v,
        Err(e) => return Err(e),
    };
    let host = match required_string(env, "database__host", "database.host") {
        Ok(v) => v,
        Err(e) => return Err(e),
    };
    let port = match required_u16(env, "database__port", "database.port") {
        Ok(v) => v,
        Err(e) => return Err(e),
    };
    let database_name = match required_string(env, "database__database_name", "database.database_name") {
        Ok(v) => v,
        Err(e) => return Err(e),
    };
    let max_connections = match required_u32(env, "database__max_connections", "database.max_connections") {
        Ok(v) => v,
        Err(e) => return Err(e),
    };
    let min_connections = match required_u32(env, "database__min_connections", "database.min_connections") {
        Ok(v) => v,
        Err(e) => return Err(e),
    };
    Ok(DatabaseSettings {
        username,
        password,
        host,
        port,
        database_name,
        max_connections,
        min_connections,
    })
}

/// Resolves the application section.
fn resolve_application(env: &Vec<(String, String)>) -> (r: Result<ApplicationSettings, ConfigError>)
    ensures
        res_view(r) == spec_application(env@),
{
    let port = match optional_u16(env, "application__port", "application.port", 8080) {
        Ok(v) => v,
        Err(e) => return Err(e),
    };
    let host = optional_string(env, "application__host", "0.0.0.0");
    let cors_allow_origin = optional_string(env, "application__cors_allow_origin", "*");
    let cors_allow_methods = optional_string(
        env,
        "application__cors_allow_methods",
        "GET, POST, OPTIONS",
    );
    let cors_allow_headers = optional_string(
        env,
        "application__cors_allow_headers",
        "Content-Type, Authorization",
    );
    Ok(ApplicationSettings {
        port,
        host,
        cors_allow_origin,
        cors_allow_methods,
        cors_allow_headers,
    })
}

/// Resolves the arch node section.
fn resolve_arch_node(env: &Vec<(String, String)>) -> (r: Result<ArchNodeSettings, ConfigError>)
    ensures
        res_view(r) == spec_arch_node(env@),
{
    match required_string(env, "arch_node__url", "arch_node.url") {
        Ok(url) => Ok(ArchNodeSettings { url }),
        Err(e) => Err(e),
    }
}

/// Resolves the redis section.
fn resolve_redis(env: &Vec<(String, String)>) -> (r: Result<RedisSettings, ConfigError>)
    ensures
        res_view(r) == spec_redis(env@),
{
    match required_string(env, "redis__url", "redis.url") {
        Ok(url) => Ok(RedisSettings { url }),
        Err(e) => Err(e),
    }
}

/// Resolves the indexer section.
fn resolve_indexer(env: &Vec<(String, String)>) -> (r: Result<IndexerSettings, ConfigError>)
    ensures
        res_view(r) == spec_indexer(env@),
{
    let batch_size = match optional_usize(env, "indexer__batch_size", "indexer.batch_size", 100) {
        Ok(v) => v,
        Err(e) => return Err(e),
    };
    let concurrent_batches = match optional_usize(
        env,
        "indexer__concurrent_batches",
        "indexer.concurrent_batches",
        5,
    ) {
        Ok(v) => v,
        Err(e) => return Err(e),
    };
    Ok(IndexerSettings { batch_size, concurrent_batches })
}

impl Settings {
    /// Resolves the full settings object from the given environment
    /// snapshot: defaults seeded first, environment overlay winning, every
    /// numeric field coerced, and the first problem in schema order aborting
    /// the whole load.
    pub fn resolve(env: &Vec<(String, String)>) -> (r: Result<Settings, ConfigError>)
        ensures
            res_view(r) == spec_resolve(env@),
    {
        let database = match resolve_database(env) {
            Ok(v) => v,
            Err(e) => return Err(e),
        };
        let application = match resolve_application(env) {
            Ok(v) => v,
            Err(e) => return Err(e),
        };
        let arch_node = match resolve_arch_node(env) {
            Ok(v) => v,
            Err(e) => return Err(e),
        };
        let redis = match resolve_redis(env) {
            Ok(v) => v,
            Err(e) => return Err(e),
        };
        let indexer = match resolve_indexer(env) {
            Ok(v) => v,
            Err(e) => return Err(e),
        };
        Ok(Settings { database, application, arch_node, redis, indexer })
    }
}

} // verus!
