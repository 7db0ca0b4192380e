//! Accounting and rebalancing core of a vault of leveraged synthetic tokens.

pub mod error;
pub mod fixed_point;
pub mod instruction;
pub mod le_bytes;
pub mod nav;
pub mod oracle;
pub mod processor;
pub mod pubkey;
pub mod state;
pub mod token;
pub mod utils;
pub mod venue;
