//! The local ZeroTier service's JSON API: its client and its records.
pub mod client;
pub mod types;
