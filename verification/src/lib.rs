//! Verified core of a self-hosted ZeroTier management service: input
//! validation, firewall and network-unit planning, metrics parsing, token
//! and log bookkeeping.
pub mod bridge;
pub mod command;
pub mod config;
pub mod deps;
pub mod exitnode;
pub mod metrics;
pub mod physnet;
pub mod relay;
pub mod runtime_state;
pub mod server;
pub mod sysctl;
pub mod text;
pub mod text_order;
pub mod zerotier;
