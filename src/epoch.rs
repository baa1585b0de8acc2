//! The lifecycle of one risk period: scheduled, triggered, closed.
use vstd::prelude::*;

use crate::error::ErrorCode;
use crate::events::{EpochFinalized, EpochStarted, EventTriggered};
use crate::fixed::{from_fp_to_u64, vault_balance_fp, SCALE};
use crate::identity::Identity;
use crate::oracle::{authorized, is_authorized, OracleList};
use crate::pool::{is_admin, State, POLICY_EPOCH_BOUNDED};
use crate::severity::{effective_severity_bps, severity_fits, severity_of};

verus! {

/// One risk period and what was recognised against it.
#[derive(Clone, Copy, Debug)]
pub struct Epoch {
    pub epoch_id: u64,
    pub start_ts: i64,
    /// Zero for an open-ended epoch.
    pub end_ts: i64,
    /// The pool's total deposits when the epoch was triggered.
    pub total_stake_snapshot_fp: u128,
    pub total_payout_fp: u128,
    pub shortfall_fp: u128,
    pub severity_bps: u16,
    /// Per-user cap under the capped policy; zero for none.
    pub user_cap_bps: u16,
    /// Liability cap under the epoch-bounded policy.
    pub epoch_cap_fp: u128,
    pub triggered: bool,
    pub closed: bool,
    pub evidence_hash: [u8; 32],
    pub evidence_ts: i64,
    pub bump: u8,
}

/// The write-once record of what one user was paid for one epoch; a zero
/// amount means nothing was claimed yet.
#[derive(Clone, Copy, Debug)]
pub struct ClaimReceipt {
    pub epoch_id: u64,
    pub owner: Identity,
    pub claimed_fp: u128,
    pub bump: u8,
}

impl Epoch {
    /// A closed epoch was triggered first.
    pub open spec fn wf(&self) -> bool {
        self.closed ==> self.triggered
    }

    /// Triggered and not yet closed: claims may be paid.
    pub open spec fn is_claimable(&self) -> bool {
        self.triggered && !self.closed
    }
}

impl ClaimReceipt {
    /// A receipt that records no claim.
    pub fn unclaimed(epoch_id: u64, owner: Identity, bump: u8) -> (r: ClaimReceipt)
        ensures
            r == (ClaimReceipt { epoch_id, owner, claimed_fp: 0, bump }),
    {
        ClaimReceipt { epoch_id, owner, claimed_fp: 0, bump }
    }
}

/// The epoch's window may open: it started already and, unless open-ended,
/// ends after it starts.
pub open spec fn schedule_ok(start_ts: i64, end_ts: i64, now: i64) -> bool {
    start_ts <= now && (end_ts == 0 || end_ts > start_ts)
}

/// Opens a new epoch in the scheduled state. Fails with `Unauthorized` unless
/// the administrator signs, and with `EpochNotActive` when `start_ts` lies
/// after `now`, or when `end_ts` is set and not after `start_ts`.
pub fn start_epoch(
    state: &State,
    signer: &Identity,
    epoch_id: u64,
    start_ts: i64,
    end_ts: i64,
    now: i64,
    bump: u8,
) -> (r: Result<(Epoch, EpochStarted), ErrorCode>)
    ensures
        !is_admin(*state, *signer) ==> r == Err::<(Epoch, EpochStarted), ErrorCode>(
            ErrorCode::Unauthorized,
        ),
        is_admin(*state, *signer) && schedule_ok(start_ts, end_ts, now) ==> (r matches Ok((e, ev)) && e == (Epoch {
            epoch_id,
            start_ts,
            end_ts,
            total_stake_snapshot_fp: 0,
            total_payout_fp: 0,
            shortfall_fp: 0,
            severity_bps: 0,
            user_cap_bps: 0,
            epoch_cap_fp: 0,
            triggered: false,
            closed: false,
            evidence_hash: e.evidence_hash,
            evidence_ts: 0,
            bump,
        }) && (forall|i: int| 0 <= i < 32 ==> e.evidence_hash@[i] == 0u8) && ev == (EpochStarted {
            epoch_id,
            start_ts,
            end_ts,
        })),
        is_admin(*state, *signer) && !schedule_ok(start_ts, end_ts, now) ==> r == Err::<
            (Epoch, EpochStarted),
            ErrorCode,
        >(ErrorCode::EpochNotActive),
{
    if !signer.same_as(&state.admin) {
        return Err(ErrorCode::Unauthorized);
    }
    if start_ts > now {
        return Err(ErrorCode::EpochNotActive);
    }
    if end_ts != 0 && end_ts <= start_ts {
        return Err(ErrorCode::EpochNotActive);
    }
    let epoch = Epoch {
        epoch_id,
        start_ts,
        end_ts,
        total_stake_snapshot_fp: 0,
        total_payout_fp: 0,
        shortfall_fp: 0,
        severity_bps: 0,
        user_cap_bps: 0,
        epoch_cap_fp: 0,
        triggered: false,
        closed: false,
        evidence_hash: [0u8; 32],
        evidence_ts: 0,
        bump,
    };
    Ok((epoch, EpochStarted { epoch_id, start_ts, end_ts }))
}

/// `now` lies within the epoch's window (open-ended when `end_ts` is zero).
pub open spec fn in_window(epoch: Epoch, now: i64) -> bool {
    if epoch.end_ts != 0 {
        epoch.start_ts <= now <= epoch.end_ts
    } else {
        epoch.start_ts <= now
    }
}

/// The evidence timestamp, when given, is recent enough.
pub open spec fn fresh_enough(evidence_ts_opt: Option<i64>, max_stale_secs: i64, now: i64) -> bool {
    match evidence_ts_opt {
        Some(e) => max_stale_secs <= 0 || now - e <= max_stale_secs,
        None => true,
    }
}

/// The first check that a trigger fails, if any, in the order they are made.
pub open spec fn trigger_error(
    state: State,
    epoch: Epoch,
    list: OracleList,
    signer: Identity,
    severity_input_bps: u16,
    evidence_ts_opt: Option<i64>,
    now: i64,
) -> Option<ErrorCode> {
    if !authorized(list, state.admin, signer) {
        Some(ErrorCode::Unauthorized)
    } else if epoch.triggered {
        Some(ErrorCode::EpochAlreadyTriggered)
    } else if !in_window(epoch, now) {
        Some(ErrorCode::EpochNotActive)
    } else if !fresh_enough(evidence_ts_opt, state.max_stale_secs, now) {
        Some(ErrorCode::EpochNotActive)
    } else if !severity_fits(
        severity_input_bps as int,
        state.sev_quad_a_fp as int,
        state.sev_quad_b_fp as int,
        state.sev_quad_c_fp as int,
    ) {
        Some(ErrorCode::ArithmeticOverflow)
    } else {
        None
    }
}

/// The severity that triggering records, in basis points.
pub open spec fn triggered_severity(state: State, severity_input_bps: u16) -> int {
    severity_of(
        severity_input_bps as int,
        state.sev_quad_a_fp as int,
        state.sev_quad_b_fp as int,
        state.sev_quad_c_fp as int,
        state.severity_floor_bps as int,
    )
}

/// Triggers the epoch on an attested severity signal. The signer must be
/// authorised, the epoch untriggered and `now` within its window, and the
/// evidence (when timestamped) fresh. The epoch snapshots the pool's total
/// deposits, records the curve's severity, the per-user cap and, under the
/// epoch-bounded policy, the liability cap; the pool is frozen until the
/// epoch is finalised. On failure nothing changes.
pub fn trigger_event(
    state: &mut State,
    epoch: &mut Epoch,
    oracle_list: &OracleList,
    signer: Identity,
    severity_input_bps: u16,
    user_cap_bps: Option<u16>,
    epoch_cap_fp_override: Option<u128>,
    evidence_hash: Option<[u8; 32]>,
    evidence_ts_opt: Option<i64>,
    now: i64,
) -> (r: Result<EventTriggered, ErrorCode>)
    requires
        old(epoch).wf(),
    ensures
        final(epoch).wf(),
        ({
            let err = trigger_error(*old(state), *old(epoch), *oracle_list, signer, severity_input_bps, evidence_ts_opt, now);
            &&& err matches Some(e) ==> r == Err::<EventTriggered, ErrorCode>(e) && *final(state)
                == *old(state) && *final(epoch) == *old(epoch)
            &&& err is None ==> {
                &&& *final(state) == (State { paused: true, last_event_ts: now, ..*old(state) })
                &&& *final(epoch) == (Epoch {
                    total_stake_snapshot_fp: old(state).total_deposited_fp,
                    severity_bps: triggered_severity(*old(state), severity_input_bps) as u16,
                    user_cap_bps: match user_cap_bps { Some(c) => c, None => 0 },
                    epoch_cap_fp: if old(state).payout_policy == POLICY_EPOCH_BOUNDED {
                        match epoch_cap_fp_override { Some(c) => c, None => old(state).epoch_cap_fp }
                    } else {
                        0
                    },
                    triggered: true,
                    evidence_hash: match evidence_hash { Some(h) => h, None => old(epoch).evidence_hash },
                    evidence_ts: match evidence_ts_opt { Some(t) => t, None => old(epoch).evidence_ts },
                    ..*old(epoch)
                })
                &&& r == Ok::<EventTriggered, ErrorCode>(EventTriggered {
                    epoch_id: old(epoch).epoch_id,
                    severity_bps: final(epoch).severity_bps,
                    user_cap_bps: final(epoch).user_cap_bps,
                    policy: old(state).payout_policy,
                    evidence_hash: final(epoch).evidence_hash,
                })
            }
        }),
{
    if !is_authorized(oracle_list, &state.admin, &signer) {
        return Err(ErrorCode::Unauthorized);
    }
    if epoch.triggered {
        return Err(ErrorCode::EpochAlreadyTriggered);
    }
    if epoch.end_ts != 0 {
        if !(now >= epoch.start_ts && now <= epoch.end_ts) {
            return Err(ErrorCode::EpochNotActive);
        }
    } else if now < epoch.start_ts {
        return Err(ErrorCode::EpochNotActive);
    }
    if let Some(e_ts) = evidence_ts_opt {
        if state.max_stale_secs > 0 && (now as i128) - (e_ts as i128) > state.max_stale_secs as i128 {
            return Err(ErrorCode::EpochNotActive);
        }
    }
    let sev = match effective_severity_bps(
        severity_input_bps as u128,
        state.sev_quad_a_fp,
        state.sev_quad_b_fp,
        state.sev_quad_c_fp,
        state.severity_floor_bps,
    ) {
        Ok(v) => v,
        Err(e) => return Err(e),
    };
    let cap = if state.payout_policy == POLICY_EPOCH_BOUNDED {
        match epoch_cap_fp_override {
            Some(c) => c,
            None => state.epoch_cap_fp,
        }
    } else {
        0
    };
    epoch.total_stake_snapshot_fp = state.total_deposited_fp;
    epoch.severity_bps = sev as u16;
    epoch.user_cap_bps = match user_cap_bps {
        Some(c) => c,
        None => 0,
    };
    epoch.epoch_cap_fp = cap;
    epoch.triggered = true;
    if let Some(e_ts) = evidence_ts_opt {
        epoch.evidence_ts = e_ts;
    }
    if let Some(h) = evidence_hash {
        epoch.evidence_hash = h;
    }
    state.last_event_ts = now;
    state.paused = true;
    Ok(EventTriggered {
        epoch_id: epoch.epoch_id,
        severity_bps: epoch.severity_bps,
        user_cap_bps: epoch.user_cap_bps,
        policy: state.payout_policy,
        evidence_hash: epoch.evidence_hash,
    })
}

/// How many whole token units a finalisation sweeps to the treasury: at most
/// the request, and at most the vault's balance beyond the pool's recorded
/// principal.
pub open spec fn dust_sweep(sweep_dust_u64: Option<u64>, vault_balance_u64: u64, principal_fp: u128) -> int {
    let bal_fp = vault_balance_u64 * SCALE;
    match sweep_dust_u64 {
        Some(sweep) => if sweep > 0 && bal_fp > principal_fp {
            let dust = (bal_fp - principal_fp) / (SCALE as int);
            if sweep <= dust { sweep as int } else { dust }
        } else {
            0
        },
        None => 0,
    }
}

/// What finalising an epoch asks the ledger to move.
#[derive(Clone, Copy, Debug)]
pub struct FinalizeOutcome {
    pub finalized: EpochFinalized,
    /// Whole token units to sweep from the vault to the treasury.
    pub sweep_u64: u64,
}

/// Closes a triggered epoch: its shortfall is carried into the pool's
/// accumulator, the pool is unfrozen, and a bounded amount of excess vault
/// balance may be swept. Fails with `Unauthorized` unless the administrator
/// signs, with `EpochNotActive` unless the epoch is triggered and open, and
/// with `ArithmeticOverflow` when the carried shortfall would overflow; on
/// failure nothing changes.
pub fn finalize_epoch(
    state: &mut State,
    epoch: &mut Epoch,
    signer: &Identity,
    sweep_dust_u64: Option<u64>,
    vault_balance_u64: u64,
) -> (r: Result<FinalizeOutcome, ErrorCode>)
    requires
        old(epoch).wf(),
    ensures
        final(epoch).wf(),
        !is_admin(*old(state), *signer) ==> r == Err::<FinalizeOutcome, ErrorCode>(ErrorCode::Unauthorized)
            && *final(state) == *old(state) && *final(epoch) == *old(epoch),
        is_admin(*old(state), *signer) && !old(epoch).is_claimable() ==> r == Err::<FinalizeOutcome, ErrorCode>(ErrorCode::EpochNotActive)
            && *final(state) == *old(state) && *final(epoch) == *old(epoch),
        is_admin(*old(state), *signer) && old(epoch).is_claimable() && old(state).carryover_shortfall_fp
            + old(epoch).shortfall_fp > u128::MAX ==> r == Err::<FinalizeOutcome, ErrorCode>(ErrorCode::ArithmeticOverflow)
            && *final(state) == *old(state) && *final(epoch) == *old(epoch),
        is_admin(*old(state), *signer) && old(epoch).is_claimable() && old(state).carryover_shortfall_fp
            + old(epoch).shortfall_fp <= u128::MAX ==> {
            &&& *final(state) == (State {
                carryover_shortfall_fp: (old(state).carryover_shortfall_fp + old(epoch).shortfall_fp) as u128,
                paused: false,
                ..*old(state)
            })
            &&& *final(epoch) == (Epoch { closed: true, ..*old(epoch) })
            &&& r matches Ok(o) && o.finalized.epoch_id == old(epoch).epoch_id
                && o.sweep_u64 == dust_sweep(sweep_dust_u64, vault_balance_u64, old(state).total_deposited_fp)
        },
{
    if !signer.same_as(&state.admin) {
        return Err(ErrorCode::Unauthorized);
    }
    if !(epoch.triggered && !epoch.closed) {
        return Err(ErrorCode::EpochNotActive);
    }
    let carried = match state.carryover_shortfall_fp.checked_add(epoch.shortfall_fp) {
        Some(v) => v,
        None => return Err(ErrorCode::ArithmeticOverflow),
    };
    let mut sweep_u64: u64 = 0;
    if let Some(sweep) = sweep_dust_u64 {
        if sweep > 0 {
            let pool_bal_fp = match vault_balance_fp(vault_balance_u64) {
                Ok(v) => v,
                Err(e) => return Err(e),
            };
            let principal_fp = state.total_deposited_fp;
            if pool_bal_fp > principal_fp {
                let dust_fp = pool_bal_fp - principal_fp;
                let dust_u64 = match from_fp_to_u64(dust_fp) {
                    Ok(v) => v,
                    Err(e) => return Err(e),
                };
                sweep_u64 = if sweep <= dust_u64 { sweep } else { dust_u64 };
            }
        }
    }
    state.carryover_shortfall_fp = carried;
    epoch.closed = true;
    state.paused = false;
    Ok(FinalizeOutcome { finalized: EpochFinalized { epoch_id: epoch.epoch_id }, sweep_u64 })
}

} // verus!
