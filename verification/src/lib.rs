//! Startup configuration loader.
//!
//! Resolves a service's settings from a snapshot of environment variables:
//! defaults are seeded first, environment values overlay them (matching
//! variable names case-insensitively against the nested schema paths), and
//! every raw string is coerced to its field's declared type. Resolution
//! either yields a fully populated [`settings::Settings`] or fails with a
//! single [`settings::ConfigError`] describing the first problem found.

pub mod coerce;
pub mod laws;
pub mod resolve;
pub mod settings;
pub mod snapshot;
