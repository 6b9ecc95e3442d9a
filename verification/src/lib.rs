//! The rules of a marketplace for single assets: how the accounts of a bid
//! are validated against derived addresses, and how a valid bid settles a
//! listing in one step, with the price paid, the asset handed over and the
//! vault and listing closed.
//!
//! The rules are stated over a [`ledger::Ledger`] of accounts and proved
//! against its view as a map from address to account state.

pub mod address;
pub mod bid;
pub mod constants;
pub mod derivation;
pub mod errors;
pub mod laws;
pub mod ledger;
pub mod state;
