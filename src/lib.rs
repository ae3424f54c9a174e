//! A registry of human-readable handles bound to 32-byte addresses, with a
//! points ledger and single-use authentication sessions that gate transfers.

pub mod address;
pub mod error;
pub mod validate;
pub mod state;
pub mod registry;
pub mod events;
pub mod accounts;
pub mod profiles;
pub mod laws;
