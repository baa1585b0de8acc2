use vstd::prelude::*;

verus! {

/// Every way an operation of the pool can fail.
#[derive(Clone, Copy, Debug, PartialEq, Eq, Structural)]
pub enum ErrorCode {
    /// Wrong signer for an administrator-, oracle- or owner-only operation,
    /// or an unknown tranche.
    Unauthorized,
    /// Deposits and withdrawals are suspended.
    Paused,
    /// Deposit below the configured minimum.
    MinDeposit,
    /// Deposit would lift the user's total above the per-user cap.
    UserCapExceeded,
    /// Operation attempted outside the epoch's lifecycle window.
    EpochNotActive,
    /// The epoch has already been triggered.
    EpochAlreadyTriggered,
    /// A scaled multiply, divide or sum left the integer domain.
    ArithmeticOverflow,
    /// Matured funds do not cover the requested withdrawal.
    InsufficientMaturedFunds,
    /// Nothing is owed: already claimed, no stake, or no liquidity.
    NothingToPayout,
    /// Deposit attempted before the cooldown since the last one elapsed.
    DepositCooldown,
    /// The tranche's lot queue is full.
    CapacityExceeded,
    /// A fee rate or tranche weight is outside its allowed range.
    ParamOutOfBounds,
    /// A payout is already in progress.
    Busy,
}

} // verus!
