//! Embedded PostgreSQL: the decisions and texts behind downloading,
//! extracting, configuring, starting and stopping a portable PostgreSQL
//! server, and behind moving rows between PostgreSQL and Arrow.
//!
//! The outside work (files, processes, network, clock) is described by
//! `effects::Effect` values that the lifecycle steps in `payload` and
//! `engine` return; a runner carries them out and reports an
//! `effects::Outcome`.

/// Strings, paths, numbers and substring search.
pub mod text;
/// Engines and configurations.
pub mod config;
/// The managed section of `postgresql.conf`.
pub mod pgconf;
/// PostgreSQL and Arrow column types.
pub mod types;
/// Table definitions and the binary `COPY` encoding for imports.
pub mod import;
/// Statements for exports.
pub mod export;
/// Errors.
pub mod error;
/// Outside work asked for by lifecycle steps, and what it gave.
pub mod effects;
/// Extraction of the engine binaries.
pub mod payload;
/// Starting and shutting down an instance.
pub mod engine;
/// The HTTP API's statements and query classification.
pub mod api;
/// The command line.
pub mod cli;
/// Replication status reports.
pub mod sync;
/// Tests that run against an instance of their own.
pub mod test_attr;
