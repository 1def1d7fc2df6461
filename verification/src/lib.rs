//! A ledger-resident lottery engine: pooled funds in a custody account whose
//! spending authority is a derivation tag rather than a private key, tickets
//! issued against a fixed play cost split between operator and custody, and
//! tiered prizes paid for the lowest position at which a time-drawn player
//! sequence matches the recorded winning sequence.
//!
//! Every balance mutation is specified exactly: each call either commits all
//! of its transfers or none, reports precisely when each error kind occurs,
//! and can never over-draw the custody account.

pub mod accounts;
pub mod engine;
pub mod errors;
pub mod numbers;
