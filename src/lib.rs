//! A stale-while-revalidate cache for one value loaded from a pluggable source.
//!
//! The library holds the policy of the cache: when a snapshot is fresh, who
//! refreshes a stale one, who waits for that refresh, how a failed refresh is
//! remembered and backed off, and how an HTTP response's headers turn into
//! freshness facts. Timestamps are milliseconds since the Unix epoch, and
//! durations are milliseconds.

/// The refresh coordinator: read decisions, failure memory and read handles.
pub mod config;
/// Snapshots and what a data source hands back.
pub mod data_provider;
/// Turning an HTTP response's status and headers into freshness facts.
pub mod http;
