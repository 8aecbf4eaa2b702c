pub mod error;
pub mod handlers;
pub mod log_collector;
pub mod middleware;
pub mod validate;
