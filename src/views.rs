//! Read-only summaries and quotes; none of them changes any record.
use vstd::prelude::*;

use crate::epoch::Epoch;
use crate::error::ErrorCode;
use crate::fixed::{from_fp_to_u64, mul_div_fits, mul_div_floor_u128, to_fp_u64, vault_balance_fp, BPS_DENOM, SCALE};
use crate::identity::Identity;
use crate::payout::{
    capped_share, max_payable, stake_fits, stake_of, user_cap_applies, weighted_stake_fp,
};
use crate::pool::{State, POLICY_CAPPED, POLICY_EPOCH_BOUNDED};
use crate::position::{fee_of, net_of, UserPosition, JUNIOR};

verus! {

#[derive(Clone, Copy, Debug)]
pub struct PoolStats {
    pub total_deposited_fp: u128,
    pub pool_balance_fp: u128,
    pub payout_policy: u8,
    pub epoch_cap_fp: u128,
    pub carryover_shortfall_fp: u128,
    pub rolling_mode: bool,
}

#[derive(Clone, Copy, Debug)]
pub struct UserPositionView {
    pub owner: Identity,
    pub senior_deposited_fp: u128,
    pub junior_deposited_fp: u128,
    pub senior_withdrawable_fp: u128,
    pub junior_withdrawable_fp: u128,
    pub last_deposit_ts: i64,
    pub referrer: Identity,
}

#[derive(Clone, Copy, Debug)]
pub struct EpochStats {
    pub epoch_id: u64,
    pub start_ts: i64,
    pub end_ts: i64,
    pub total_stake_snapshot_fp: u128,
    pub total_payout_fp: u128,
    pub severity_bps: u16,
    pub user_cap_bps: u16,
    pub epoch_cap_fp: u128,
    pub shortfall_fp: u128,
    pub triggered: bool,
    pub closed: bool,
    pub evidence_hash: [u8; 32],
    pub evidence_ts: i64,
}

/// A user's prospective payout and the epoch's payable total.
#[derive(Clone, Copy, Debug)]
pub struct QuoteOut {
    pub user_payout_fp: u128,
    pub max_epoch_liability_fp: u128,
}

/// What a deposit would credit and what fees it would pay.
#[derive(Clone, Copy, Debug)]
pub struct DepositQuote {
    pub net_fp: u128,
    pub protocol_fee_u64: u64,
    pub referral_fee_u64: u64,
}

/// Whether a withdrawal is covered by the tranche's withdrawable balance.
#[derive(Clone, Copy, Debug)]
pub struct WithdrawQuote {
    pub can_withdraw: bool,
    pub available_fp: u128,
    pub requested_fp: u128,
}

/// The pool's totals and policy, with the vault's balance in scaled units.
pub fn pool_stats(state: &State, vault_balance_u64: u64) -> (r: PoolStats)
    ensures
        r == (PoolStats {
            total_deposited_fp: state.total_deposited_fp,
            pool_balance_fp: (vault_balance_u64 * SCALE) as u128,
            payout_policy: state.payout_policy,
            epoch_cap_fp: state.epoch_cap_fp,
            carryover_shortfall_fp: state.carryover_shortfall_fp,
            rolling_mode: state.rolling_mode,
        }),
{
    let bal = match vault_balance_fp(vault_balance_u64) {
        Ok(v) => v,
        Err(_) => 0,
    };
    PoolStats {
        total_deposited_fp: state.total_deposited_fp,
        pool_balance_fp: bal,
        payout_policy: state.payout_policy,
        epoch_cap_fp: state.epoch_cap_fp,
        carryover_shortfall_fp: state.carryover_shortfall_fp,
        rolling_mode: state.rolling_mode,
    }
}

/// A position's balances, without its lot queues.
pub fn user_position_view(p: &UserPosition) -> (r: UserPositionView)
    ensures
        r == (UserPositionView {
            owner: p.owner,
            senior_deposited_fp: p.senior_deposited_fp,
            junior_deposited_fp: p.junior_deposited_fp,
            senior_withdrawable_fp: p.senior_withdrawable_fp,
            junior_withdrawable_fp: p.junior_withdrawable_fp,
            last_deposit_ts: p.last_deposit_ts,
            referrer: p.referrer,
        }),
{
    UserPositionView {
        owner: p.owner,
        senior_deposited_fp: p.senior_deposited_fp,
        junior_deposited_fp: p.junior_deposited_fp,
        senior_withdrawable_fp: p.senior_withdrawable_fp,
        junior_withdrawable_fp: p.junior_withdrawable_fp,
        last_deposit_ts: p.last_deposit_ts,
        referrer: p.referrer,
    }
}

/// An epoch's schedule, snapshot and running totals.
pub fn epoch_stats(e: &Epoch) -> (r: EpochStats)
    ensures
        r == (EpochStats {
            epoch_id: e.epoch_id,
            start_ts: e.start_ts,
            end_ts: e.end_ts,
            total_stake_snapshot_fp: e.total_stake_snapshot_fp,
            total_payout_fp: e.total_payout_fp,
            severity_bps: e.severity_bps,
            user_cap_bps: e.user_cap_bps,
            epoch_cap_fp: e.epoch_cap_fp,
            shortfall_fp: e.shortfall_fp,
            triggered: e.triggered,
            closed: e.closed,
            evidence_hash: e.evidence_hash,
            evidence_ts: e.evidence_ts,
        }),
{
    EpochStats {
        epoch_id: e.epoch_id,
        start_ts: e.start_ts,
        end_ts: e.end_ts,
        total_stake_snapshot_fp: e.total_stake_snapshot_fp,
        total_payout_fp: e.total_payout_fp,
        severity_bps: e.severity_bps,
        user_cap_bps: e.user_cap_bps,
        epoch_cap_fp: e.epoch_cap_fp,
        shortfall_fp: e.shortfall_fp,
        triggered: e.triggered,
        closed: e.closed,
        evidence_hash: e.evidence_hash,
        evidence_ts: e.evidence_ts,
    }
}

/// The user has a stake and the epoch an exposure to divide it by.
pub open spec fn quote_has_share(state: State, epoch: Epoch, position: UserPosition) -> bool {
    epoch.total_stake_snapshot_fp > 0 && stake_of(state, position) > 0
}

/// The first error of a payout quote, if any.
pub open spec fn quote_error(state: State, epoch: Epoch, position: UserPosition, vault_balance_u64: u64) -> Option<
    ErrorCode,
> {
    if !epoch.triggered {
        Some(ErrorCode::EpochNotActive)
    } else if !mul_div_fits(epoch.total_stake_snapshot_fp as int, epoch.severity_bps as int, BPS_DENOM as int) {
        Some(ErrorCode::ArithmeticOverflow)
    } else if !stake_fits(state, position) {
        Some(ErrorCode::ArithmeticOverflow)
    } else if quote_has_share(state, epoch, position) && !mul_div_fits(
        max_payable(state, epoch, vault_balance_u64),
        stake_of(state, position),
        epoch.total_stake_snapshot_fp as int,
    ) {
        Some(ErrorCode::ArithmeticOverflow)
    } else if quote_has_share(state, epoch, position) && user_cap_applies(state, epoch) && !mul_div_fits(
        stake_of(state, position),
        epoch.user_cap_bps as int,
        BPS_DENOM as int,
    ) {
        Some(ErrorCode::ArithmeticOverflow)
    } else {
        None
    }
}

/// Quotes a user's payout for a triggered epoch: the pro-rata share (with
/// the per-user cap under the capped policy, zero without a stake or an
/// exposure) and the epoch's payable total. It ignores earlier claims and
/// the room left in the epoch.
pub fn quote_user_payout(state: &State, epoch: &Epoch, position: &UserPosition, vault_balance_u64: u64) -> (r: Result<
    QuoteOut,
    ErrorCode,
>)
    ensures
        match quote_error(*state, *epoch, *position, vault_balance_u64) {
            Some(e) => r == Err::<QuoteOut, ErrorCode>(e),
            None => r == Ok::<QuoteOut, ErrorCode>(QuoteOut {
                user_payout_fp: if quote_has_share(*state, *epoch, *position) {
                    capped_share(*state, *epoch, *position, vault_balance_u64) as u128
                } else {
                    0
                },
                max_epoch_liability_fp: max_payable(*state, *epoch, vault_balance_u64) as u128,
            }),
        },
{
    if !epoch.triggered {
        return Err(ErrorCode::EpochNotActive);
    }
    let bal = match vault_balance_fp(vault_balance_u64) {
        Ok(v) => v,
        Err(e) => return Err(e),
    };
    let base_liab = match mul_div_floor_u128(epoch.total_stake_snapshot_fp, epoch.severity_bps as u128, BPS_DENOM) {
        Ok(v) => v,
        Err(e) => return Err(e),
    };
    let liab_cap = if state.payout_policy == POLICY_EPOCH_BOUNDED && epoch.epoch_cap_fp < base_liab {
        epoch.epoch_cap_fp
    } else {
        base_liab
    };
    let max_liab = if liab_cap <= bal { liab_cap } else { bal };
    let eff_user = match weighted_stake_fp(
        position.senior_deposited_fp,
        position.junior_deposited_fp,
        state.tranche_weight_senior_bps as u128,
        state.tranche_weight_junior_bps as u128,
    ) {
        Ok(v) => v,
        Err(e) => return Err(e),
    };
    let mut user_share: u128 = 0;
    if epoch.total_stake_snapshot_fp > 0 && eff_user > 0 {
        user_share = match mul_div_floor_u128(max_liab, eff_user, epoch.total_stake_snapshot_fp) {
            Ok(v) => v,
            Err(e) => return Err(e),
        };
        if state.payout_policy == POLICY_CAPPED && epoch.user_cap_bps > 0 {
            let cap = match mul_div_floor_u128(eff_user, epoch.user_cap_bps as u128, BPS_DENOM) {
                Ok(v) => v,
                Err(e) => return Err(e),
            };
            if cap < user_share {
                user_share = cap;
            }
        }
    }
    Ok(QuoteOut { user_payout_fp: user_share, max_epoch_liability_fp: max_liab })
}

/// Quotes a deposit of `amount_usdc` whole token units made with a referrer:
/// the net credit after both fees, and both fees in whole units. Fails with `ArithmeticOverflow` when a fee in
/// whole units does not fit in 64 bits.
pub fn quote_deposit(state: &State, amount_usdc: u64) -> (r: Result<DepositQuote, ErrorCode>)
    ensures
        ({
            let amount_fp = amount_usdc * SCALE;
            let pf = fee_of(amount_fp, state.protocol_fee_bps as int) / (SCALE as int);
            let rf = fee_of(amount_fp, state.referral_fee_bps as int) / (SCALE as int);
            &&& pf <= u64::MAX && rf <= u64::MAX ==> r == Ok::<DepositQuote, ErrorCode>(DepositQuote {
                net_fp: net_of(amount_fp, state.protocol_fee_bps as int, state.referral_fee_bps as int) as u128,
                protocol_fee_u64: pf as u64,
                referral_fee_u64: rf as u64,
            })
            &&& !(pf <= u64::MAX && rf <= u64::MAX) ==> r == Err::<DepositQuote, ErrorCode>(
                ErrorCode::ArithmeticOverflow,
            )
        }),
{
    let fp = match to_fp_u64(amount_usdc) {
        Ok(v) => v,
        Err(e) => return Err(e),
    };
    assert(fp * (state.protocol_fee_bps as int) <= u128::MAX) by (nonlinear_arith)
        requires fp <= u64::MAX * SCALE, state.protocol_fee_bps <= u16::MAX;
    assert(fp * (state.referral_fee_bps as int) <= u128::MAX) by (nonlinear_arith)
        requires fp <= u64::MAX * SCALE, state.referral_fee_bps <= u16::MAX;
    let pf = match mul_div_floor_u128(fp, state.protocol_fee_bps as u128, BPS_DENOM) {
        Ok(v) => v,
        Err(e) => return Err(e),
    };
    let rf = match mul_div_floor_u128(fp, state.referral_fee_bps as u128, BPS_DENOM) {
        Ok(v) => v,
        Err(e) => return Err(e),
    };
    assert(pf <= fp * 7 && rf <= fp * 7) by (nonlinear_arith)
        requires pf == fp * (state.protocol_fee_bps as int) / 10000, rf == fp * (state.referral_fee_bps as int) / 10000,
            state.protocol_fee_bps <= u16::MAX, state.referral_fee_bps <= u16::MAX, fp >= 0;
    let fees = pf + rf;
    let net = if fp >= fees { fp - fees } else { 0 };
    let pf_u64 = match from_fp_to_u64(pf) {
        Ok(v) => v,
        Err(e) => return Err(e),
    };
    let rf_u64 = match from_fp_to_u64(rf) {
        Ok(v) => v,
        Err(e) => return Err(e),
    };
    Ok(DepositQuote { net_fp: net, protocol_fee_u64: pf_u64, referral_fee_u64: rf_u64 })
}

/// Quotes a withdrawal from `tranche` (0 senior, 1 junior) against the
/// tranche's current withdrawable balance, without releasing any lot.
pub fn quote_withdraw(p: &UserPosition, amount_usdc: u64, tranche: u8) -> (r: Result<WithdrawQuote, ErrorCode>)
    ensures
        tranche > JUNIOR ==> r == Err::<WithdrawQuote, ErrorCode>(ErrorCode::Unauthorized),
        tranche <= JUNIOR ==> r == Ok::<WithdrawQuote, ErrorCode>(WithdrawQuote {
            can_withdraw: p.withdrawable_of(tranche) >= amount_usdc * SCALE,
            available_fp: p.withdrawable_of(tranche),
            requested_fp: (amount_usdc * SCALE) as u128,
        }),
{
    if tranche > JUNIOR {
        return Err(ErrorCode::Unauthorized);
    }
    let need_fp = match to_fp_u64(amount_usdc) {
        Ok(v) => v,
        Err(e) => return Err(e),
    };
    let avail_fp = if tranche == 0 { p.senior_withdrawable_fp } else { p.junior_withdrawable_fp };
    Ok(WithdrawQuote { can_withdraw: avail_fp >= need_fp, available_fp: avail_fp, requested_fp: need_fp })
}

} // verus!
