//! A compliance and identity-verification engine for permissioned tokens.
//!
//! Every transfer is allowed or denied from the parties' verified identity
//! status and from a configurable set of jurisdictional and behavioural rules.
//! The engine holds no state of its own: callers hand it the records to read
//! and to update, together with the current time.

pub mod address;
pub mod admin;
pub mod claims;
pub mod compliance;
pub mod config;
pub mod engine;
pub mod error;
pub mod identity;
pub mod identity_ops;
pub mod initialize_token;
pub mod laws;
pub mod token_ops;
pub mod utils;

pub use address::{Address, ADDRESS_BYTES};
pub use error::ERC3643Error;
