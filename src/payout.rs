//! Pro-rata payouts against a triggered epoch, at most one per user.
use vstd::prelude::*;

use crate::epoch::{ClaimReceipt, Epoch};
use crate::error::ErrorCode;
use crate::events::UserPayout;
use crate::fixed::{from_fp_to_u64, mul_div_fits, mul_div_floor_u128, vault_balance_fp, BPS_DENOM, SCALE};
use crate::identity::Identity;
use crate::pool::{State, POLICY_CAPPED, POLICY_EPOCH_BOUNDED};
use crate::position::UserPosition;

verus! {

/// `a * b / d` rounded down, on mathematical integers.
pub open spec fn mul_div(a: int, b: int, d: int) -> int {
    a * b / d
}

/// The smaller of two integers.
pub open spec fn min_of(a: int, b: int) -> int {
    if a <= b { a } else { b }
}

/// The epoch's liability before any cap: exposure times severity.
pub open spec fn base_liability(epoch: Epoch) -> int {
    mul_div(epoch.total_stake_snapshot_fp as int, epoch.severity_bps as int, BPS_DENOM as int)
}

/// The liability after the epoch-bounded policy's cap, if that policy is active.
pub open spec fn liability_cap(state: State, epoch: Epoch) -> int {
    if state.payout_policy == POLICY_EPOCH_BOUNDED {
        min_of(base_liability(epoch), epoch.epoch_cap_fp as int)
    } else {
        base_liability(epoch)
    }
}

/// What the epoch can pay out in total: its capped liability, at most the
/// vault's liquidity.
pub open spec fn max_payable(state: State, epoch: Epoch, vault_balance_u64: u64) -> int {
    min_of(liability_cap(state, epoch), vault_balance_u64 * SCALE)
}

/// The tranche-weighted stake, when it can be computed within 128 bits.
pub open spec fn weighted_stake_fits(senior_fp: int, junior_fp: int, w_senior_bps: int, w_junior_bps: int) -> bool {
    &&& senior_fp * w_senior_bps <= u128::MAX
    &&& junior_fp * w_junior_bps <= u128::MAX
    &&& weighted_stake(senior_fp, junior_fp, w_senior_bps, w_junior_bps) <= u128::MAX
}

/// Each tranche's deposits scaled by its weight, summed.
pub open spec fn weighted_stake(senior_fp: int, junior_fp: int, w_senior_bps: int, w_junior_bps: int) -> int {
    mul_div(senior_fp, w_senior_bps, BPS_DENOM as int) + mul_div(junior_fp, w_junior_bps, BPS_DENOM as int)
}

/// A position's tranche-weighted stake under the pool's weights.
pub open spec fn stake_of(state: State, position: UserPosition) -> int {
    weighted_stake(
        position.senior_deposited_fp as int,
        position.junior_deposited_fp as int,
        state.tranche_weight_senior_bps as int,
        state.tranche_weight_junior_bps as int,
    )
}

pub open spec fn stake_fits(state: State, position: UserPosition) -> bool {
    weighted_stake_fits(
        position.senior_deposited_fp as int,
        position.junior_deposited_fp as int,
        state.tranche_weight_senior_bps as int,
        state.tranche_weight_junior_bps as int,
    )
}

/// The per-user cap of the capped policy applies.
pub open spec fn user_cap_applies(state: State, epoch: Epoch) -> bool {
    state.payout_policy == POLICY_CAPPED && epoch.user_cap_bps > 0
}

/// The user's pro-rata share of what is payable, before the per-user cap.
pub open spec fn pro_rata_share(state: State, epoch: Epoch, position: UserPosition, vault_balance_u64: u64) -> int {
    mul_div(
        max_payable(state, epoch, vault_balance_u64),
        stake_of(state, position),
        epoch.total_stake_snapshot_fp as int,
    )
}

/// The share after the per-user cap, when that cap applies.
pub open spec fn capped_share(state: State, epoch: Epoch, position: UserPosition, vault_balance_u64: u64) -> int {
    let share = pro_rata_share(state, epoch, position, vault_balance_u64);
    if user_cap_applies(state, epoch) {
        min_of(share, mul_div(stake_of(state, position), epoch.user_cap_bps as int, BPS_DENOM as int))
    } else {
        share
    }
}

/// The first error of the share computation, if any: overflow, or nothing
/// to share.
pub open spec fn share_error(state: State, epoch: Epoch, position: UserPosition, vault_balance_u64: u64) -> Option<
    ErrorCode,
> {
    if !mul_div_fits(epoch.total_stake_snapshot_fp as int, epoch.severity_bps as int, BPS_DENOM as int) {
        Some(ErrorCode::ArithmeticOverflow)
    } else if max_payable(state, epoch, vault_balance_u64) == 0 {
        Some(ErrorCode::NothingToPayout)
    } else if !stake_fits(state, position) {
        Some(ErrorCode::ArithmeticOverflow)
    } else if stake_of(state, position) == 0 || epoch.total_stake_snapshot_fp == 0 {
        Some(ErrorCode::NothingToPayout)
    } else if !mul_div_fits(
        max_payable(state, epoch, vault_balance_u64),
        stake_of(state, position),
        epoch.total_stake_snapshot_fp as int,
    ) {
        Some(ErrorCode::ArithmeticOverflow)
    } else if user_cap_applies(state, epoch) && !mul_div_fits(
        stake_of(state, position),
        epoch.user_cap_bps as int,
        BPS_DENOM as int,
    ) {
        Some(ErrorCode::ArithmeticOverflow)
    } else {
        None
    }
}

/// What is left of the epoch's payable amount after earlier claims.
pub open spec fn remaining_room(state: State, epoch: Epoch, vault_balance_u64: u64) -> int {
    let m = max_payable(state, epoch, vault_balance_u64);
    if m >= epoch.total_payout_fp { m - epoch.total_payout_fp } else { 0 }
}

/// The outcome of a payout: the amount paid in scaled units, or the first
/// error, in the order the checks are made.
pub open spec fn payout_result(
    state: State,
    epoch: Epoch,
    position: UserPosition,
    claim: ClaimReceipt,
    user: Identity,
    vault_balance_u64: u64,
) -> Result<int, ErrorCode> {
    if state.processing {
        Err(ErrorCode::Busy)
    } else if !epoch.is_claimable() {
        Err(ErrorCode::EpochNotActive)
    } else if position.owner.bytes@ != user.bytes@ {
        Err(ErrorCode::Unauthorized)
    } else if claim.claimed_fp != 0 {
        Err(ErrorCode::NothingToPayout)
    } else if let Some(e) = share_error(state, epoch, position, vault_balance_u64) {
        Err(e)
    } else {
        let pay = min_of(
            capped_share(state, epoch, position, vault_balance_u64),
            remaining_room(state, epoch, vault_balance_u64),
        );
        if pay == 0 {
            Err(ErrorCode::NothingToPayout)
        } else {
            Ok(pay)
        }
    }
}

/// The epoch after a payout attempt: on success its running total grows by
/// the amount paid and a shortfall is recorded when the base liability
/// exceeds the vault's liquidity; on failure it is unchanged.
pub open spec fn epoch_after_payout(
    state: State,
    epoch: Epoch,
    position: UserPosition,
    claim: ClaimReceipt,
    user: Identity,
    vault_balance_u64: u64,
) -> Epoch {
    match payout_result(state, epoch, position, claim, user, vault_balance_u64) {
        Ok(pay) => Epoch {
            total_payout_fp: (epoch.total_payout_fp + pay) as u128,
            shortfall_fp: if base_liability(epoch) > vault_balance_u64 * SCALE {
                (base_liability(epoch) - vault_balance_u64 * SCALE) as u128
            } else {
                epoch.shortfall_fp
            },
            ..epoch
        },
        Err(_) => epoch,
    }
}

/// One payout attempt: the claimant's position, their receipt, the signer
/// and the vault balance at the time.
pub type ClaimAttempt = (UserPosition, ClaimReceipt, Identity, u64);

/// The epoch after a sequence of payout attempts, in order.
pub open spec fn epoch_after_claims(state: State, epoch: Epoch, attempts: Seq<ClaimAttempt>) -> Epoch
    decreases attempts.len(),
{
    if attempts.len() == 0 {
        epoch
    } else {
        let (position, claim, user, balance) = attempts[0];
        epoch_after_claims(
            state,
            epoch_after_payout(state, epoch, position, claim, user, balance),
            attempts.subrange(1, attempts.len() as int),
        )
    }
}

/// Tranche-weighted stake: each tranche's deposits times its weight in basis
/// points, summed. Fails with `ArithmeticOverflow` when it leaves 128 bits.
pub fn weighted_stake_fp(senior_fp: u128, junior_fp: u128, w_senior_bps: u128, w_junior_bps: u128) -> (r: Result<
    u128,
    ErrorCode,
>)
    ensures
        weighted_stake_fits(senior_fp as int, junior_fp as int, w_senior_bps as int, w_junior_bps as int)
            ==> r == Ok::<u128, ErrorCode>(
            weighted_stake(senior_fp as int, junior_fp as int, w_senior_bps as int, w_junior_bps as int) as u128,
        ),
        !weighted_stake_fits(senior_fp as int, junior_fp as int, w_senior_bps as int, w_junior_bps as int)
            ==> r == Err::<u128, ErrorCode>(ErrorCode::ArithmeticOverflow),
{
    let s_w = match mul_div_floor_u128(senior_fp, w_senior_bps, BPS_DENOM) {
        Ok(v) => v,
        Err(e) => return Err(e),
    };
    let j_w = match mul_div_floor_u128(junior_fp, w_junior_bps, BPS_DENOM) {
        Ok(v) => v,
        Err(e) => return Err(e),
    };
    match s_w.checked_add(j_w) {
        Some(v) => Ok(v),
        None => Err(ErrorCode::ArithmeticOverflow),
    }
}

/// What a successful payout asks the ledger to move.
#[derive(Clone, Copy, Debug)]
pub struct PayoutOutcome {
    pub payout: UserPayout,
    /// Whole token units to move from the vault to the user.
    pub transfer_u64: u64,
}

fn compute_payout(
    state: &State,
    epoch: &Epoch,
    position: &UserPosition,
    claim: &ClaimReceipt,
    user: &Identity,
    vault_balance_u64: u64,
) -> (r: Result<(u128, u128), ErrorCode>)
    ensures
        match payout_result(State { processing: false, ..*state }, *epoch, *position, *claim, *user, vault_balance_u64) {
            Ok(pay) => r matches Ok((p, b)) && p == pay && b == base_liability(*epoch),
            Err(e) => r == Err::<(u128, u128), ErrorCode>(e),
        },
{
    if !(epoch.triggered && !epoch.closed) {
        return Err(ErrorCode::EpochNotActive);
    }
    if !position.owner.same_as(user) {
        return Err(ErrorCode::Unauthorized);
    }
    if claim.claimed_fp != 0 {
        return Err(ErrorCode::NothingToPayout);
    }
    let pool_balance_fp = match vault_balance_fp(vault_balance_u64) {
        Ok(v) => v,
        Err(e) => return Err(e),
    };
    let base_liability_fp = match mul_div_floor_u128(epoch.total_stake_snapshot_fp, epoch.severity_bps as u128, BPS_DENOM) {
        Ok(v) => v,
        Err(e) => return Err(e),
    };
    let mut liability_cap_fp = base_liability_fp;
    if state.payout_policy == POLICY_EPOCH_BOUNDED && epoch.epoch_cap_fp < liability_cap_fp {
        liability_cap_fp = epoch.epoch_cap_fp;
    }
    let max_liability_fp = if liability_cap_fp <= pool_balance_fp { liability_cap_fp } else { pool_balance_fp };
    if max_liability_fp == 0 {
        return Err(ErrorCode::NothingToPayout);
    }
    let stake = match weighted_stake_fp(
        position.senior_deposited_fp,
        position.junior_deposited_fp,
        state.tranche_weight_senior_bps as u128,
        state.tranche_weight_junior_bps as u128,
    ) {
        Ok(v) => v,
        Err(e) => return Err(e),
    };
    if stake == 0 || epoch.total_stake_snapshot_fp == 0 {
        return Err(ErrorCode::NothingToPayout);
    }
    let share = match mul_div_floor_u128(max_liability_fp, stake, epoch.total_stake_snapshot_fp) {
        Ok(v) => v,
        Err(e) => return Err(e),
    };
    let capped = if state.payout_policy == POLICY_CAPPED && epoch.user_cap_bps > 0 {
        let cap_fp = match mul_div_floor_u128(stake, epoch.user_cap_bps as u128, BPS_DENOM) {
            Ok(v) => v,
            Err(e) => return Err(e),
        };
        if share <= cap_fp { share } else { cap_fp }
    } else {
        share
    };
    let room = if max_liability_fp >= epoch.total_payout_fp { max_liability_fp - epoch.total_payout_fp } else { 0 };
    let pay = if capped <= room { capped } else { room };
    if pay == 0 {
        return Err(ErrorCode::NothingToPayout);
    }
    Ok((pay, base_liability_fp))
}

/// Pays `user` their share of a triggered, open epoch, at most once. The
/// claim receipt must still be unclaimed; the share is the epoch's payable
/// amount split by tranche-weighted stake against the exposure snapshot,
/// rounded down, clamped by the per-user cap under the capped policy and by
/// the room left in the epoch. On success the epoch's running total grows by
/// the amount, a shortfall is recorded when the base liability exceeds the
/// vault's liquidity, and the receipt is written; on failure nothing changes.
/// A payout already in flight makes the call fail with `Busy`.
pub fn payout_user(
    state: &mut State,
    epoch: &mut Epoch,
    position: &UserPosition,
    claim: &mut ClaimReceipt,
    user: Identity,
    vault_balance_u64: u64,
) -> (r: Result<PayoutOutcome, ErrorCode>)
    ensures
        *final(state) == *old(state),
        r is Ok ==> final(epoch).total_payout_fp <= max_payable(*old(state), *old(epoch), vault_balance_u64)
            && r->Ok_0.transfer_u64 <= vault_balance_u64,
        match payout_result(*old(state), *old(epoch), *position, *old(claim), user, vault_balance_u64) {
            Ok(pay) => {
                &&& r matches Ok(o) && o.payout == (UserPayout {
                    epoch_id: old(epoch).epoch_id,
                    owner: position.owner,
                    payout_fp: pay as u128,
                }) && o.transfer_u64 == pay / (SCALE as int)
                &&& *final(epoch) == epoch_after_payout(*old(state), *old(epoch), *position, *old(claim), user, vault_balance_u64)
                &&& *final(claim) == (ClaimReceipt {
                    epoch_id: old(epoch).epoch_id,
                    owner: user,
                    claimed_fp: pay as u128,
                    ..*old(claim)
                })
            },
            Err(e) => r == Err::<PayoutOutcome, ErrorCode>(e) && *final(epoch) == *old(epoch)
                && *final(claim) == *old(claim),
        },
{
    if state.processing {
        return Err(ErrorCode::Busy);
    }
    state.processing = true;
    let res = compute_payout(state, epoch, position, claim, &user, vault_balance_u64);
    let out = match res {
        Err(e) => Err(e),
        Ok((pay, base_liability_fp)) => {
            let pool_balance_fp = match vault_balance_fp(vault_balance_u64) {
                Ok(v) => v,
                Err(e) => {
                    state.processing = false;
                    return Err(e);
                },
            };
            let transfer_u64 = match from_fp_to_u64(pay) {
                Ok(v) => v,
                Err(e) => {
                    state.processing = false;
                    return Err(e);
                },
            };
            if base_liability_fp > pool_balance_fp {
                epoch.shortfall_fp = base_liability_fp - pool_balance_fp;
            }
            epoch.total_payout_fp = epoch.total_payout_fp + pay;
            claim.epoch_id = epoch.epoch_id;
            claim.owner = user;
            claim.claimed_fp = pay;
            Ok(PayoutOutcome {
                payout: UserPayout { epoch_id: epoch.epoch_id, owner: position.owner, payout_fp: pay },
                transfer_u64,
            })
        },
    };
    state.processing = false;
    proof {
        if out is Ok {
            lemma_liability_cap_respected(
                *old(state),
                *old(epoch),
                *position,
                *old(claim),
                user,
                vault_balance_u64,
                vault_balance_u64 * SCALE,
            );
            let pay = payout_result(*old(state), *old(epoch), *position, *old(claim), user, vault_balance_u64)->Ok_0;
            assert(pay / (SCALE as int) <= vault_balance_u64) by (nonlinear_arith)
                requires 0 <= pay <= vault_balance_u64 * SCALE;
        }
    }
    out
}

/// No double claim: once a payout succeeds, the receipt it writes holds a
/// non-zero amount, and any later payout with that receipt fails, whatever
/// the pool, epoch, position and vault look like by then; while the epoch is
/// still open and no payout is in flight, it fails with `NothingToPayout`.
pub proof fn lemma_no_double_claim(
    state: State,
    epoch: Epoch,
    position: UserPosition,
    claim: ClaimReceipt,
    user: Identity,
    vault_balance_u64: u64,
    later_state: State,
    later_epoch: Epoch,
    later_position: UserPosition,
    later_balance_u64: u64,
)
    requires
        payout_result(state, epoch, position, claim, user, vault_balance_u64) is Ok,
    ensures
        ({
            let pay = payout_result(state, epoch, position, claim, user, vault_balance_u64)->Ok_0;
            let receipt = ClaimReceipt {
                epoch_id: epoch.epoch_id,
                owner: user,
                claimed_fp: pay as u128,
                ..claim
            };
            &&& receipt.claimed_fp > 0
            &&& payout_result(later_state, later_epoch, later_position, receipt, user, later_balance_u64) is Err
            &&& !later_state.processing && later_epoch.is_claimable() && later_position.owner.bytes@
                == user.bytes@ ==> payout_result(
                later_state,
                later_epoch,
                later_position,
                receipt,
                user,
                later_balance_u64,
            ) == Err::<int, ErrorCode>(ErrorCode::NothingToPayout)
        }),
{
    let pay = payout_result(state, epoch, position, claim, user, vault_balance_u64)->Ok_0;
    assert(pay <= max_payable(state, epoch, vault_balance_u64));
    assert(vault_balance_u64 * SCALE <= u128::MAX) by (nonlinear_arith)
        requires vault_balance_u64 <= u64::MAX;
}

/// Liability cap respected: a successful payout leaves the epoch's running
/// total within its capped liability and within the vault's liquidity at
/// trigger time, given that the vault held no more than that when the claim
/// was paid (the pool stays frozen while claims are paid).
pub proof fn lemma_liability_cap_respected(
    state: State,
    epoch: Epoch,
    position: UserPosition,
    claim: ClaimReceipt,
    user: Identity,
    vault_balance_u64: u64,
    liquidity_at_trigger_fp: int,
)
    requires
        payout_result(state, epoch, position, claim, user, vault_balance_u64) is Ok,
        vault_balance_u64 * SCALE <= liquidity_at_trigger_fp,
    ensures
        epoch.total_payout_fp + payout_result(state, epoch, position, claim, user, vault_balance_u64)->Ok_0
            <= min_of(liability_cap(state, epoch), liquidity_at_trigger_fp),
{
}

/// Liability cap respected over any sequence of claims: starting from an
/// epoch within its bound, whatever the order and outcome of the payout
/// attempts, the running total of what was paid against the epoch stays
/// within its capped liability and the vault's liquidity at trigger time
/// (the vault holding no more than that at each attempt).
pub proof fn lemma_claims_within_liability(
    state: State,
    epoch: Epoch,
    attempts: Seq<ClaimAttempt>,
    liquidity_at_trigger_fp: int,
)
    requires
        epoch.total_payout_fp <= min_of(liability_cap(state, epoch), liquidity_at_trigger_fp),
        forall|i: int| 0 <= i < attempts.len() ==> (#[trigger] attempts[i]).3 * SCALE <= liquidity_at_trigger_fp,
    ensures
        epoch_after_claims(state, epoch, attempts).total_payout_fp <= min_of(
            liability_cap(state, epoch),
            liquidity_at_trigger_fp,
        ),
        liability_cap(state, epoch_after_claims(state, epoch, attempts)) == liability_cap(state, epoch),
    decreases attempts.len(),
{
    if attempts.len() > 0 {
        let (position, claim, user, balance) = attempts[0];
        let next = epoch_after_payout(state, epoch, position, claim, user, balance);
        assert(attempts[0].3 * SCALE <= liquidity_at_trigger_fp);
        if payout_result(state, epoch, position, claim, user, balance) is Ok {
            lemma_liability_cap_respected(state, epoch, position, claim, user, balance, liquidity_at_trigger_fp);
            assert(balance * SCALE <= u128::MAX) by (nonlinear_arith)
                requires balance <= u64::MAX;
        }
        assert(liability_cap(state, next) == liability_cap(state, epoch));
        let rest = attempts.subrange(1, attempts.len() as int);
        assert forall|i: int| 0 <= i < rest.len() implies (#[trigger] rest[i]).3 * SCALE <= liquidity_at_trigger_fp by {
            assert(rest[i] == attempts[i + 1]);
        }
        lemma_claims_within_liability(state, next, rest, liquidity_at_trigger_fp);
    }
}

/// Liability cap respected on a new epoch: an epoch opened by `start_epoch`
/// and triggered by `trigger_event` has paid nothing yet, so after any
/// sequence of payout attempts, in any order, what was paid against it stays
/// within its capped liability and the vault's liquidity at trigger time.
pub proof fn lemma_new_epoch_claims_within_liability(
    state: State,
    epoch: Epoch,
    attempts: Seq<ClaimAttempt>,
    liquidity_at_trigger_fp: int,
)
    requires
        epoch.total_payout_fp == 0,
        forall|i: int| 0 <= i < attempts.len() ==> (#[trigger] attempts[i]).3 * SCALE <= liquidity_at_trigger_fp,
        0 <= liquidity_at_trigger_fp,
    ensures
        epoch_after_claims(state, epoch, attempts).total_payout_fp <= min_of(
            liability_cap(state, epoch),
            liquidity_at_trigger_fp,
        ),
{
    assert(base_liability(epoch) >= 0) by (nonlinear_arith)
        requires
            epoch.total_stake_snapshot_fp >= 0,
            epoch.severity_bps >= 0,
            base_liability(epoch) == epoch.total_stake_snapshot_fp * epoch.severity_bps / 10000;
    lemma_claims_within_liability(state, epoch, attempts, liquidity_at_trigger_fp);
}

} // verus!
