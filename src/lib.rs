//! A ledger of per-account balances, each split into a spendable ("free") and a
//! reserved ("lock") part, with a cache of accounts addressed by storage key.
//!
//! The library decides; it performs no I/O. Every successful mutation hands back
//! the `StoreWrite` that the caller must persist before reporting success, and a
//! cache miss is resolved by handing in what the store returned for the key.
pub mod balance;
pub mod laws;
pub mod repository;
