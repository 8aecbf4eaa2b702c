pub mod parser;
pub mod cache;
pub mod collector;
