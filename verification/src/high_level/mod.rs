//! The high-level brain client: sign-in, simulations and data-field tables.
pub mod brain_client;
pub mod simple_strategy;
pub mod sql_db;
pub mod types;

pub use brain_client::BrainClientConfig;
