//! Exit node: route ZeroTier clients' traffic out through this host.
pub mod deps;
pub mod interfaces;
pub mod manager;
pub mod ndp;
pub mod platform;
pub mod rules;
