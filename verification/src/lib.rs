//! Gap-limited scanning of hierarchical-deterministic wallet addresses.
//!
//! The library normalizes the four supported extended-public-key encodings
//! into one canonical form, derives external-chain child addresses from it,
//! and drives a bounded discovery loop that stops on a run of unused
//! addresses, an index bound, or the global lookup budget.

pub mod address;
pub mod cli;
pub mod client;
pub mod error;
pub mod keys;
pub mod network;
pub mod retry;
pub mod scan;
