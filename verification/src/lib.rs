//! Validation and execution logic for a single on-chain deposit operation: a
//! caller moves native balance units from an owned account into a per-owner
//! vault account whose address is deterministically derived from a fixed seed
//! label and the owner's address.

pub mod account;
pub mod deposit;
pub mod error;
pub mod payload;
pub mod pda;
pub mod system;
pub mod validate;
