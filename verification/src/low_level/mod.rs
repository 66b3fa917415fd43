//! The low-level API client: one call per REST endpoint.
pub mod client;
pub mod types;
