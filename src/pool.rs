//! Pool-wide configuration and running totals.
use vstd::prelude::*;

use crate::error::ErrorCode;
use crate::events::{Initialized, Paused};
use crate::identity::Identity;

verus! {

/// Largest protocol or referral fee rate, in basis points.
pub const MAX_FEE_BPS: u16 = 1_000;

/// Largest tranche weight, in basis points.
pub const MAX_WEIGHT_BPS: u16 = 10_000;

/// Policy code: payouts proportional to stake, with no further cap.
pub const POLICY_PROPORTIONAL: u8 = 0;

/// Policy code: proportional payouts, each clamped by a per-user cap.
pub const POLICY_CAPPED: u8 = 1;

/// Policy code: the epoch's total liability is bounded by a fixed cap.
pub const POLICY_EPOCH_BOUNDED: u8 = 2;

/// How an epoch's liability is shared out.
#[derive(Clone, Copy, Debug, PartialEq, Eq, Structural)]
pub enum PayoutPolicy {
    Proportional,
    Capped,
    EpochBounded,
}

impl PayoutPolicy {
    pub open spec fn code_spec(self) -> u8 {
        match self {
            PayoutPolicy::Proportional => POLICY_PROPORTIONAL,
            PayoutPolicy::Capped => POLICY_CAPPED,
            PayoutPolicy::EpochBounded => POLICY_EPOCH_BOUNDED,
        }
    }

    /// The code under which the pool stores this policy.
    pub fn code(self) -> (r: u8)
        ensures
            r == self.code_spec(),
    {
        match self {
            PayoutPolicy::Proportional => POLICY_PROPORTIONAL,
            PayoutPolicy::Capped => POLICY_CAPPED,
            PayoutPolicy::EpochBounded => POLICY_EPOCH_BOUNDED,
        }
    }
}

/// The pool's single configuration and accounting record.
#[derive(Clone, Copy, Debug)]
pub struct State {
    pub admin: Identity,
    pub usdc_mint: Identity,
    pub protocol_treasury: Identity,
    pub paused: bool,
    /// Set while a payout is in flight.
    pub processing: bool,
    /// One of the `POLICY_*` codes.
    pub payout_policy: u8,
    pub user_deposit_cap_fp: u128,
    pub min_deposit_fp: u128,
    pub protocol_fee_bps: u16,
    pub referral_fee_bps: u16,
    pub lockup_secs: i64,
    pub min_seconds_between_deposits: i64,
    pub epoch_cap_fp: u128,
    pub rolling_mode: bool,
    pub max_stale_secs: i64,
    pub sev_quad_a_fp: u128,
    pub sev_quad_b_fp: u128,
    pub sev_quad_c_fp: u128,
    pub severity_floor_bps: u16,
    pub tranche_weight_senior_bps: u16,
    pub tranche_weight_junior_bps: u16,
    pub last_event_ts: i64,
    pub total_deposited_fp: u128,
    pub carryover_shortfall_fp: u128,
    pub bump: u8,
}

/// The administrator's choices when the pool is created.
#[derive(Clone, Copy, Debug)]
pub struct InitializeParams {
    pub protocol_treasury: Identity,
    pub payout_policy: u8,
    pub user_deposit_cap_fp: u128,
    pub min_deposit_fp: u128,
    pub protocol_fee_bps: u16,
    pub referral_fee_bps: u16,
    pub lockup_secs: i64,
    pub min_seconds_between_deposits: i64,
    pub epoch_cap_fp: u128,
    pub rolling_mode: bool,
    pub max_stale_secs: i64,
    pub sev_quad_a_fp: u128,
    pub sev_quad_b_fp: u128,
    pub sev_quad_c_fp: u128,
    pub severity_floor_bps: u16,
    pub tranche_weight_senior_bps: u16,
    pub tranche_weight_junior_bps: u16,
}

/// Fee rates at most 1000 bps and tranche weights at most 10000 bps.
pub open spec fn bounds_ok(protocol_fee_bps: u16, referral_fee_bps: u16, senior_bps: u16, junior_bps: u16) -> bool {
    &&& protocol_fee_bps <= MAX_FEE_BPS
    &&& referral_fee_bps <= MAX_FEE_BPS
    &&& senior_bps <= MAX_WEIGHT_BPS
    &&& junior_bps <= MAX_WEIGHT_BPS
}

impl State {
    /// The pool's parameter bounds hold.
    pub open spec fn wf(&self) -> bool {
        bounds_ok(
            self.protocol_fee_bps,
            self.referral_fee_bps,
            self.tranche_weight_senior_bps,
            self.tranche_weight_junior_bps,
        )
    }
}

/// Checks the pool's parameter bounds.
pub fn assert_param_bounds(s: &State) -> (r: Result<(), ErrorCode>)
    ensures
        s.wf() ==> r == Ok::<(), ErrorCode>(()),
        !s.wf() ==> r == Err::<(), ErrorCode>(ErrorCode::ParamOutOfBounds),
{
    if s.protocol_fee_bps > MAX_FEE_BPS || s.referral_fee_bps > MAX_FEE_BPS {
        return Err(ErrorCode::ParamOutOfBounds);
    }
    if s.tranche_weight_senior_bps > MAX_WEIGHT_BPS || s.tranche_weight_junior_bps > MAX_WEIGHT_BPS {
        return Err(ErrorCode::ParamOutOfBounds);
    }
    Ok(())
}

/// The record that `initialize` builds from its inputs.
pub open spec fn initial_state(admin: Identity, usdc_mint: Identity, p: InitializeParams, bump: u8) -> State {
    State {
        admin,
        usdc_mint,
        protocol_treasury: p.protocol_treasury,
        paused: false,
        processing: false,
        payout_policy: p.payout_policy,
        user_deposit_cap_fp: p.user_deposit_cap_fp,
        min_deposit_fp: p.min_deposit_fp,
        protocol_fee_bps: p.protocol_fee_bps,
        referral_fee_bps: p.referral_fee_bps,
        lockup_secs: p.lockup_secs,
        min_seconds_between_deposits: p.min_seconds_between_deposits,
        epoch_cap_fp: p.epoch_cap_fp,
        rolling_mode: p.rolling_mode,
        max_stale_secs: p.max_stale_secs,
        sev_quad_a_fp: p.sev_quad_a_fp,
        sev_quad_b_fp: p.sev_quad_b_fp,
        sev_quad_c_fp: p.sev_quad_c_fp,
        severity_floor_bps: p.severity_floor_bps,
        tranche_weight_senior_bps: p.tranche_weight_senior_bps,
        tranche_weight_junior_bps: p.tranche_weight_junior_bps,
        last_event_ts: 0,
        total_deposited_fp: 0,
        carryover_shortfall_fp: 0,
        bump,
    }
}

/// Creates the pool record: unpaused, idle, with zero running totals.
/// Fails with `ParamOutOfBounds` when a fee rate or weight is out of range.
pub fn initialize(admin: Identity, usdc_mint: Identity, params: InitializeParams, bump: u8) -> (r: Result<
    (State, Initialized),
    ErrorCode,
>)
    ensures
        initial_state(admin, usdc_mint, params, bump).wf() ==> (r matches Ok((s, ev)) && s
            == initial_state(admin, usdc_mint, params, bump) && ev.admin == admin && ev.usdc_mint
            == usdc_mint),
        !initial_state(admin, usdc_mint, params, bump).wf() ==> r == Err::<(State, Initialized), ErrorCode>(
            ErrorCode::ParamOutOfBounds,
        ),
{
    let state = State {
        admin,
        usdc_mint,
        protocol_treasury: params.protocol_treasury,
        paused: false,
        processing: false,
        payout_policy: params.payout_policy,
        user_deposit_cap_fp: params.user_deposit_cap_fp,
        min_deposit_fp: params.min_deposit_fp,
        protocol_fee_bps: params.protocol_fee_bps,
        referral_fee_bps: params.referral_fee_bps,
        lockup_secs: params.lockup_secs,
        min_seconds_between_deposits: params.min_seconds_between_deposits,
        epoch_cap_fp: params.epoch_cap_fp,
        rolling_mode: params.rolling_mode,
        max_stale_secs: params.max_stale_secs,
        sev_quad_a_fp: params.sev_quad_a_fp,
        sev_quad_b_fp: params.sev_quad_b_fp,
        sev_quad_c_fp: params.sev_quad_c_fp,
        severity_floor_bps: params.severity_floor_bps,
        tranche_weight_senior_bps: params.tranche_weight_senior_bps,
        tranche_weight_junior_bps: params.tranche_weight_junior_bps,
        last_event_ts: 0,
        total_deposited_fp: 0,
        carryover_shortfall_fp: 0,
        bump,
    };
    match assert_param_bounds(&state) {
        Ok(()) => Ok((state, Initialized { admin, usdc_mint })),
        Err(e) => Err(e),
    }
}

/// `signer` is the pool's administrator.
pub open spec fn is_admin(state: State, signer: Identity) -> bool {
    signer.bytes@ == state.admin.bytes@
}

/// Suspends or resumes deposits and withdrawals. Only the administrator may;
/// anyone else gets `Unauthorized` and nothing changes.
pub fn set_paused(state: &mut State, signer: &Identity, paused: bool) -> (r: Result<Paused, ErrorCode>)
    ensures
        !is_admin(*old(state), *signer) ==> r == Err::<Paused, ErrorCode>(ErrorCode::Unauthorized)
            && *final(state) == *old(state),
        is_admin(*old(state), *signer) ==> r == Ok::<Paused, ErrorCode>(Paused { paused })
            && *final(state) == (State { paused, ..*old(state) }),
{
    if !signer.same_as(&state.admin) {
        return Err(ErrorCode::Unauthorized);
    }
    state.paused = paused;
    Ok(Paused { paused })
}

/// Replaces the payout policy and, when given, the epoch liability cap.
/// Fails, changing nothing, with `Unauthorized` unless the administrator
/// signs, and with `ParamOutOfBounds` when the pool's bounds do not hold.
pub fn set_policy(state: &mut State, signer: &Identity, payout_policy: u8, epoch_cap_fp: Option<u128>) -> (r: Result<
    (),
    ErrorCode,
>)
    ensures
        !is_admin(*old(state), *signer) ==> r == Err::<(), ErrorCode>(ErrorCode::Unauthorized)
            && *final(state) == *old(state),
        is_admin(*old(state), *signer) && old(state).wf() ==> r == Ok::<(), ErrorCode>(()) && *final(state) == (State {
            payout_policy,
            epoch_cap_fp: match epoch_cap_fp {
                Some(cap) => cap,
                None => old(state).epoch_cap_fp,
            },
            ..*old(state)
        }),
        is_admin(*old(state), *signer) && !old(state).wf() ==> r == Err::<(), ErrorCode>(
            ErrorCode::ParamOutOfBounds,
        ) && *final(state) == *old(state),
{
    if !signer.same_as(&state.admin) {
        return Err(ErrorCode::Unauthorized);
    }
    match assert_param_bounds(state) {
        Ok(()) => {},
        Err(e) => return Err(e),
    }
    state.payout_policy = payout_policy;
    if let Some(cap) = epoch_cap_fp {
        state.epoch_cap_fp = cap;
    }
    Ok(())
}

/// Replaces the severity curve and the tranche weights. Fails, changing
/// nothing, with `Unauthorized` unless the administrator signs, and with
/// `ParamOutOfBounds` when the result would break the pool's bounds.
pub fn set_curve_and_weights(
    state: &mut State,
    signer: &Identity,
    sev_quad_a_fp: u128,
    sev_quad_b_fp: u128,
    sev_quad_c_fp: u128,
    severity_floor_bps: u16,
    tranche_weight_senior_bps: u16,
    tranche_weight_junior_bps: u16,
) -> (r: Result<(), ErrorCode>)
    ensures
        ({
            let updated = State {
                sev_quad_a_fp,
                sev_quad_b_fp,
                sev_quad_c_fp,
                severity_floor_bps,
                tranche_weight_senior_bps,
                tranche_weight_junior_bps,
                ..*old(state)
            };
            &&& !is_admin(*old(state), *signer) ==> r == Err::<(), ErrorCode>(ErrorCode::Unauthorized)
                && *final(state) == *old(state)
            &&& is_admin(*old(state), *signer) && updated.wf() ==> r == Ok::<(), ErrorCode>(())
                && *final(state) == updated
            &&& is_admin(*old(state), *signer) && !updated.wf() ==> r == Err::<(), ErrorCode>(
                ErrorCode::ParamOutOfBounds,
            ) && *final(state) == *old(state)
        }),
{
    if !signer.same_as(&state.admin) {
        return Err(ErrorCode::Unauthorized);
    }
    let mut updated = *state;
    updated.sev_quad_a_fp = sev_quad_a_fp;
    updated.sev_quad_b_fp = sev_quad_b_fp;
    updated.sev_quad_c_fp = sev_quad_c_fp;
    updated.severity_floor_bps = severity_floor_bps;
    updated.tranche_weight_senior_bps = tranche_weight_senior_bps;
    updated.tranche_weight_junior_bps = tranche_weight_junior_bps;
    match assert_param_bounds(&updated) {
        Ok(()) => {
            *state = updated;
            Ok(())
        },
        Err(e) => Err(e),
    }
}

} // verus!
