//! The settings schema: the typed sections the loader produces, their
//! mathematical views, and the error taxonomy of resolution.

use vstd::prelude::*;

verus! {

/// Database connection settings; every field is required.
#[derive(Debug, Clone, PartialEq)]
pub struct DatabaseSettings {
    pub username: String,
    pub password: String,
    pub host: String,
    pub port: u16,
    pub database_name: String,
    pub max_connections: u32,
    pub min_connections: u32,
}

/// Network binding and CORS policy; every field has a default.
#[derive(Debug, Clone, PartialEq)]
pub struct ApplicationSettings {
    pub port: u16,
    pub host: String,
    pub cors_allow_origin: String,
    pub cors_allow_methods: String,
    pub cors_allow_headers: String,
}

/// Endpoint of the upstream arch node; required.
#[derive(Debug, Clone, PartialEq)]
pub struct ArchNodeSettings {
    pub url: String,
}

/// Endpoint of the redis instance; required.
#[derive(Debug, Clone, PartialEq)]
pub struct RedisSettings {
    pub url: String,
}

/// Indexing batch tuning; every field has a default.
#[derive(Debug, Clone, PartialEq)]
pub struct IndexerSettings {
    pub batch_size: usize,
    pub concurrent_batches: usize,
}

/// The root settings object, immutable once resolution has produced it.
#[derive(Debug, Clone, PartialEq)]
pub struct Settings {
    pub database: DatabaseSettings,
    pub application: ApplicationSettings,
    pub arch_node: ArchNodeSettings,
    pub redis: RedisSettings,
    pub indexer: IndexerSettings,
}

/// Mathematical view of [`DatabaseSettings`].
pub ghost struct DatabaseSettingsView {
    pub username: Seq<char>,
    pub password: Seq<char>,
    pub host: Seq<char>,
    pub port: u16,
    pub database_name: Seq<char>,
    pub max_connections: u32,
    pub min_connections: u32,
}

/// Mathematical view of [`ApplicationSettings`].
pub ghost struct ApplicationSettingsView {
    pub port: u16,
    pub host: Seq<char>,
    pub cors_allow_origin: Seq<char>,
    pub cors_allow_methods: Seq<char>,
    pub cors_allow_headers: Seq<char>,
}

/// Mathematical view of [`ArchNodeSettings`].
pub ghost struct ArchNodeSettingsView {
    pub url: Seq<char>,
}

/// Mathematical view of [`RedisSettings`].
pub ghost struct RedisSettingsView {
    pub url: Seq<char>,
}

/// Mathematical view of [`IndexerSettings`].
pub ghost struct IndexerSettingsView {
    pub batch_size: usize,
    pub concurrent_batches: usize,
}

/// Mathematical view of [`Settings`].
pub ghost struct SettingsView {
    pub database: DatabaseSettingsView,
    pub application: ApplicationSettingsView,
    pub arch_node: ArchNodeSettingsView,
    pub redis: RedisSettingsView,
    pub indexer: IndexerSettingsView,
}

impl View for DatabaseSettings {
    type V = DatabaseSettingsView;

    open spec fn view(&self) -> DatabaseSettingsView {
        DatabaseSettingsView {
            username: self.username@,
            password: self.password@,
            host: self.host@,
            port: self.port,
            database_name: self.database_name@,
            max_connections: self.max_connections,
            min_connections: self.min_connections,
        }
    }
}

impl View for ApplicationSettings {
    type V = ApplicationSettingsView;

    open spec fn view(&self) -> ApplicationSettingsView {
        ApplicationSettingsView {
            port: self.port,
            host: self.host@,
            cors_allow_origin: self.cors_allow_origin@,
            cors_allow_methods: self.cors_allow_methods@,
            cors_allow_headers: self.cors_allow_headers@,
        }
    }
}

impl View for ArchNodeSettings {
    type V = ArchNodeSettingsView;

    open spec fn view(&self) -> ArchNodeSettingsView {
        ArchNodeSettingsView { url: self.url@ }
    }
}

impl View for RedisSettings {
    type V = RedisSettingsView;

    open spec fn view(&self) -> RedisSettingsView {
        RedisSettingsView { url: self.url@ }
    }
}

impl View for IndexerSettings {
    type V = IndexerSettingsView;

    open spec fn view(&self) -> IndexerSettingsView {
        IndexerSettingsView {
            batch_size: self.batch_size,
            concurrent_batches: self.concurrent_batches,
        }
    }
}

impl View for Settings {
    type V = SettingsView;

    open spec fn view(&self) -> SettingsView {
        SettingsView {
            database: self.database@,
            application: self.application@,
            arch_node: self.arch_node@,
            redis: self.redis@,
            indexer: self.indexer@,
        }
    }
}

/// Why resolution failed. Resolution is atomic: any failure aborts the whole
/// load, and the error names the first problem found in schema order.
#[derive(Debug, Clone, PartialEq)]
pub enum ConfigError {
    /// A field without a registered default had no matching environment
    /// value. Carries the dotted path of the field.
    MissingRequiredField(String),
    /// A matched raw value could not be coerced to the field's declared
    /// type. Carries the dotted path of the field.
    TypeCoercionFailure(String),
    /// The environment snapshot could not be obtained at all.
    SourceAccessFailure,
}

/// Mathematical view of [`ConfigError`].
pub ghost enum ConfigErrorView {
    MissingRequiredField(Seq<char>),
    TypeCoercionFailure(Seq<char>),
    SourceAccessFailure,
}

impl View for ConfigError {
    type V = ConfigErrorView;

    open spec fn view(&self) -> ConfigErrorView {
        match self {
            ConfigError::MissingRequiredField(p) => ConfigErrorView::MissingRequiredField(p@),
            ConfigError::TypeCoercionFailure(p) => ConfigErrorView::TypeCoercionFailure(p@),
            ConfigError::SourceAccessFailure => ConfigErrorView::SourceAccessFailure,
        }
    }
}

/// The default CORS allowed origin: the permissive wildcard.
pub fn default_cors_origin() -> (r: String)
    ensures
        r@ == "*"@,
{
    String::from_str("*")
}

/// The default CORS allowed methods.
pub fn default_cors_methods() -> (r: String)
    ensures
        r@ == "GET, POST, OPTIONS"@,
{
    String::from_str("GET, POST, OPTIONS")
}

/// The default CORS allowed headers.
pub fn default_cors_headers() -> (r: String)
    ensures
        r@ == "Content-Type, Authorization"@,
{
    String::from_str("Content-Type, Authorization")
}

} // verus!
