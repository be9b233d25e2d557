//! A token vesting ledger: schedules, per-beneficiary grants, and the claim
//! engine that releases a linearly vested supply from a treasury.
pub mod address;
pub mod error;
pub mod accounts;
pub mod vesting;
pub mod program;
pub mod laws;
