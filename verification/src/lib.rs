//! Core accounting engine for a token-launch exchange: a constant-product
//! bonding curve per issued token, fee accrual and withdrawal, a time-gated
//! creator vesting schedule, a deflationary burn-for-access mechanism, and a
//! per-creator launch cooldown.
//!
//! The engine is pure: every operation is a function from plain values (the
//! record being updated, the global configuration, the caller's identity, the
//! current time) to a new record and the amounts the surrounding custody layer
//! must move. Custody of funds and tokens, caller authentication, and storage
//! addressing live outside this crate.

pub mod errors;
pub mod math;
pub mod state;

pub mod burn_access;
pub mod buy;
pub mod claim_vested;
pub mod create_token;
pub mod initialize;
pub mod revoke_vesting;
pub mod sell;
pub mod withdraw_fees;
