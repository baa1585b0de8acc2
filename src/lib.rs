//! Accounting and settlement core of a mutualised tail-risk insurance pool.
//!
//! Deposits enter per-tranche FIFO lot queues with a lockup, an attested
//! severity signal triggers an epoch, and each participant pulls at most one
//! pro-rata payout per epoch. Value transfer, clocks, signatures and account
//! storage belong to the surrounding runtime: every operation here takes the
//! plain values it needs (the current time, the vault balance, the signer)
//! and returns what must be moved.
pub mod epoch;
pub mod error;
pub mod events;
pub mod fixed;
pub mod identity;
pub mod lots;
pub mod oracle;
pub mod payout;
pub mod pool;
pub mod position;
pub mod severity;
pub mod views;
