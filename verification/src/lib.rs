//! Accounting core of a metered-bandwidth settlement engine.
//!
//! Service providers ("nodes") register with staked collateral, a trusted
//! attestor reports relayed bytes, and per-session escrow deposits settle
//! into capped payouts with a protocol fee taken off the top. This crate
//! holds the verified bookkeeping: reward accrual, the session escrow state
//! machine, slashing, and the authorization gates in front of each of them.
//!
//! Asset movement, clocks and record persistence belong to the surrounding
//! ledger runtime. Every operation here is pure: it takes the records it
//! touches, mutates them in place or returns fresh ones, and reports the
//! transfer the caller still owes (a claim amount, a settlement payout).

pub mod errors;
pub mod events;
pub mod keys;
pub mod laws;
pub mod node;
pub mod session;
pub mod state;
