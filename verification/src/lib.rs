//! Accounting core of a burn-for-reward program.
//!
//! Holders submit batches of items from registered collections for
//! destruction and are paid a reward per item. The crate keeps the registry
//! of collections with the running totals, processes the batches, records
//! every batch in a per-account append-only history, and decides who may read
//! that history. Executable code is verified against the contracts stated on
//! each function.

pub mod model;
pub mod registry;
pub mod ledger;
pub mod burn;
pub mod access;
pub mod admin;
pub mod gateway;
pub mod contract;
pub mod laws;
