//! Records of what each operation did, for auditing and monitoring.
use vstd::prelude::*;

use crate::identity::Identity;

verus! {

/// The pool was set up.
#[derive(Clone, Copy, Debug)]
pub struct Initialized {
    pub admin: Identity,
    pub usdc_mint: Identity,
}

/// A deposit was credited, net of fees.
#[derive(Clone, Copy, Debug)]
pub struct Deposited {
    pub owner: Identity,
    pub amount_fp: u128,
    pub referrer: Identity,
    pub tranche: u8,
}

/// The protocol fee of a deposit, in whole token units.
#[derive(Clone, Copy, Debug)]
pub struct ProtocolFeeTaken {
    pub amount_u64: u64,
}

/// The referral fee of a deposit, in whole token units.
#[derive(Clone, Copy, Debug)]
pub struct ReferralFeeTaken {
    pub amount_u64: u64,
    pub referrer: Identity,
}

/// An epoch was opened.
#[derive(Clone, Copy, Debug)]
pub struct EpochStarted {
    pub epoch_id: u64,
    pub start_ts: i64,
    pub end_ts: i64,
}

/// An epoch was triggered by an attested event.
#[derive(Clone, Copy, Debug)]
pub struct EventTriggered {
    pub epoch_id: u64,
    pub severity_bps: u16,
    pub user_cap_bps: u16,
    pub policy: u8,
    pub evidence_hash: [u8; 32],
}

/// A participant was paid for an epoch.
#[derive(Clone, Copy, Debug)]
pub struct UserPayout {
    pub epoch_id: u64,
    pub owner: Identity,
    pub payout_fp: u128,
}

/// Matured funds were withdrawn from a tranche.
#[derive(Clone, Copy, Debug)]
pub struct Withdrawn {
    pub owner: Identity,
    pub amount_fp: u128,
    pub tranche: u8,
}

/// An epoch was closed.
#[derive(Clone, Copy, Debug)]
pub struct EpochFinalized {
    pub epoch_id: u64,
}

/// Deposits and withdrawals were suspended or resumed.
#[derive(Clone, Copy, Debug)]
pub struct Paused {
    pub paused: bool,
}

} // verus!
