//! Verified core of a trustless two-party escrow on a programmable ledger.
//!
//! A maker deposits an amount of one fungible asset into a derived vault and
//! records the amount of a second asset demanded in return.  A taker may then
//! fulfill the exchange, or the maker may cancel it; either way the record and
//! its vault are destroyed together.  This crate holds the persistent record
//! format, the deterministic address-derivation contracts, and the three
//! atomic operations (create, fulfill, cancel) as verified state transitions.

pub mod addresses;
pub mod errors;
pub mod instructions;
pub mod ledger;
pub mod state;
