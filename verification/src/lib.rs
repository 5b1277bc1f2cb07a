//! Escrow-based payment engine: deterministic custody addressing and a
//! verified lifecycle state machine over escrow records and their balances.

pub mod addr;
pub mod error;
pub mod laws;
pub mod ledger;
pub mod lifecycle;
pub mod state;
