//! A terminal weather library: provider-normalised weather readings,
//! TTL-based cache validity, bounded-backoff retry policy, and the
//! refresh task lifecycle, with machine-checked contracts.

pub mod aad;
pub mod cache;
pub mod clock;
pub mod condition;
pub mod decorations;
pub mod draw;
pub mod error;
pub mod geocoding;
pub mod house;
pub mod met_office;
pub mod offline;
pub mod orchestrator;
pub mod provider;
pub mod retry;
pub mod scene;
pub mod session;
pub mod skyline;
pub mod text;
pub mod types;
pub mod units;
