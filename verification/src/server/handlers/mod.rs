//! The decisions of the HTTP handlers: request bodies, their checks, and
//! what each request leads to. The handlers themselves (routing, JSON,
//! locks, I/O) live with the application.
pub mod bridge;
pub mod central;
pub mod config;
pub mod exitnode;
pub mod local;
pub mod local_config;
pub mod logs;
pub mod metrics;
pub mod ndp;
pub mod physnet;
pub mod relay;
pub mod system;
pub mod tokens;
