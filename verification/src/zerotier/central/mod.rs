//! ZeroTier Central: member records and the store of API tokens.
pub mod client;
pub mod token_store;
pub mod types;
