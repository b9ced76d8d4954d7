//! A staking pool: user-deposited tokens are tracked in a pool-wide ledger
//! and per-participant ledgers, and an aggregated reward, less a configured
//! fee retained by the pool, is periodically paid to one selected recipient.
//!
//! The engine operates on plain ledger and custody values; the hosting layer
//! supplies the records, serializes concurrent operations, and carries out
//! the actual token movement on success.

pub mod engine;
pub mod laws;
pub mod ledger;
