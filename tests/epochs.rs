use tail_risk_pool::epoch::{finalize_epoch, start_epoch, trigger_event, ClaimReceipt, Epoch};
use tail_risk_pool::error::ErrorCode;
use tail_risk_pool::fixed::SCALE;
use tail_risk_pool::identity::Identity;
use tail_risk_pool::oracle::{is_authorized, oracle_is_allowed, OracleList};
use tail_risk_pool::payout::{payout_user, weighted_stake_fp};
use tail_risk_pool::pool::{
    initialize, set_curve_and_weights, set_paused, set_policy, InitializeParams, State, POLICY_CAPPED,
    POLICY_EPOCH_BOUNDED, POLICY_PROPORTIONAL,
};
use tail_risk_pool::position::{deposit_insurance, UserPosition};
use tail_risk_pool::severity::effective_severity_bps;
use tail_risk_pool::views::{epoch_stats, pool_stats, quote_user_payout, user_position_view};

fn id(n: u8) -> Identity {
    Identity { bytes: [n; 32] }
}

fn pool(policy: u8, epoch_cap_fp: u128) -> State {
    let p = InitializeParams {
        protocol_treasury: id(9),
        payout_policy: policy,
        user_deposit_cap_fp: 10_000_000 * SCALE,
        min_deposit_fp: 0,
        protocol_fee_bps: 0,
        referral_fee_bps: 0,
        lockup_secs: 0,
        min_seconds_between_deposits: 0,
        epoch_cap_fp,
        rolling_mode: false,
        max_stale_secs: 0,
        sev_quad_a_fp: 0,
        sev_quad_b_fp: SCALE,
        sev_quad_c_fp: 0,
        severity_floor_bps: 0,
        tranche_weight_senior_bps: 10_000,
        tranche_weight_junior_bps: 10_000,
    };
    initialize(id(1), id(2), p, 255).unwrap().0
}

fn oracles(enabled: bool) -> OracleList {
    let mut keys = [Identity::zero(); 16];
    keys[0] = id(50);
    keys[1] = id(51);
    OracleList { enabled, count: 2, keys, bump: 0 }
}

fn funded(state: &mut State, owner: u8, units: u64) -> UserPosition {
    let mut p = UserPosition::new(id(owner), 1);
    deposit_insurance(state, &mut p, id(owner), units, 0, None, None, 1).unwrap();
    p
}

fn triggered(state: &mut State, severity_bps: u16) -> Epoch {
    let (mut e, _) = start_epoch(state, &id(1), 7, 0, 0, 5, 3).unwrap();
    trigger_event(state, &mut e, &oracles(true), id(1), severity_bps, None, None, None, None, 10).unwrap();
    e
}

#[test]
fn pro_rata_payout_scenario() {
    let mut state = pool(POLICY_PROPORTIONAL, 0);
    let a = funded(&mut state, 3, 50_000);
    let _b = funded(&mut state, 4, 50_000);
    let mut e = triggered(&mut state, 500);
    assert_eq!(e.total_stake_snapshot_fp, 100_000 * SCALE);
    assert_eq!(e.severity_bps, 500);
    let q = quote_user_payout(&state, &e, &a, 100_000).unwrap();
    assert_eq!(q.max_epoch_liability_fp, 5_000 * SCALE);
    assert_eq!(q.user_payout_fp, 2_500 * SCALE);
    let mut claim = ClaimReceipt::unclaimed(7, id(3), 2);
    let out = payout_user(&mut state, &mut e, &a, &mut claim, id(3), 100_000).unwrap();
    assert_eq!(out.payout.payout_fp, 2_500 * SCALE);
    assert_eq!(out.transfer_u64, 2_500);
    assert_eq!(claim.claimed_fp, 2_500 * SCALE);
    assert_eq!(claim.owner, id(3));
    assert_eq!(e.total_payout_fp, 2_500 * SCALE);
    let again = payout_user(&mut state, &mut e, &a, &mut claim, id(3), 97_500);
    assert_eq!(again.unwrap_err(), ErrorCode::NothingToPayout);
    assert_eq!(claim.claimed_fp, 2_500 * SCALE);
    assert_eq!(e.total_payout_fp, 2_500 * SCALE);
    assert!(!state.processing);
}

#[test]
fn epoch_bounded_cap_scenario() {
    let mut state = pool(POLICY_EPOCH_BOUNDED, 1_000 * SCALE);
    let a = funded(&mut state, 3, 50_000);
    let b = funded(&mut state, 4, 30_000);
    let c = funded(&mut state, 5, 20_000);
    let mut e = triggered(&mut state, 500);
    assert_eq!(e.epoch_cap_fp, 1_000 * SCALE);
    let q = quote_user_payout(&state, &e, &a, 100_000).unwrap();
    assert_eq!(q.max_epoch_liability_fp, 1_000 * SCALE);
    let mut total: u128 = 0;
    let mut balance: u64 = 100_000;
    for (pos, owner) in [(a, 3u8), (b, 4u8), (c, 5u8)] {
        let mut claim = ClaimReceipt::unclaimed(7, id(owner), 0);
        let out = payout_user(&mut state, &mut e, &pos, &mut claim, id(owner), balance).unwrap();
        total += out.payout.payout_fp;
        balance -= out.transfer_u64;
    }
    assert_eq!(total, 1_000 * SCALE);
    assert_eq!(e.total_payout_fp, 1_000 * SCALE);
    // A late claimant finds no room left.
    let mut late = UserPosition::new(id(6), 1);
    late.senior_deposited_fp = 10 * SCALE;
    let mut claim = ClaimReceipt::unclaimed(7, id(6), 0);
    let r = payout_user(&mut state, &mut e, &late, &mut claim, id(6), balance);
    assert_eq!(r.unwrap_err(), ErrorCode::NothingToPayout);
    assert!(e.total_payout_fp <= 1_000 * SCALE);
}

#[test]
fn shortfall_recorded_and_carried() {
    let mut state = pool(POLICY_PROPORTIONAL, 0);
    let a = funded(&mut state, 3, 100_000);
    let mut e = triggered(&mut state, 500);
    let mut claim = ClaimReceipt::unclaimed(7, id(3), 0);
    // Only 1,000 units of liquidity against a 5,000 liability.
    let out = payout_user(&mut state, &mut e, &a, &mut claim, id(3), 1_000).unwrap();
    assert_eq!(out.payout.payout_fp, 1_000 * SCALE);
    assert_eq!(e.shortfall_fp, 4_000 * SCALE);
    let fin = finalize_epoch(&mut state, &mut e, &id(1), None, 0).unwrap();
    assert_eq!(fin.finalized.epoch_id, 7);
    assert_eq!(fin.sweep_u64, 0);
    assert_eq!(state.carryover_shortfall_fp, 4_000 * SCALE);
    assert!(e.closed && !state.paused);
    assert_eq!(finalize_epoch(&mut state, &mut e, &id(1), None, 0).unwrap_err(), ErrorCode::EpochNotActive);
    assert_eq!(finalize_epoch(&mut state, &mut e, &id(4), None, 0).unwrap_err(), ErrorCode::Unauthorized);
}

#[test]
fn capped_policy_clamps_each_user() {
    let mut state = pool(POLICY_CAPPED, 0);
    let a = funded(&mut state, 3, 1_000);
    let (mut e, _) = start_epoch(&state, &id(1), 8, 0, 100, 5, 3).unwrap();
    trigger_event(&mut state, &mut e, &oracles(true), id(50), 10_000, Some(100), None, Some([4; 32]), Some(9), 10)
        .unwrap();
    assert_eq!(e.user_cap_bps, 100);
    assert_eq!(e.evidence_hash, [4; 32]);
    assert_eq!(e.evidence_ts, 9);
    let mut claim = ClaimReceipt::unclaimed(8, id(3), 0);
    let out = payout_user(&mut state, &mut e, &a, &mut claim, id(3), 1_000).unwrap();
    // Share would be 1,000 units; the 1% cap allows 10.
    assert_eq!(out.payout.payout_fp, 10 * SCALE);
}

#[test]
fn dust_sweep_is_bounded() {
    let mut state = pool(POLICY_PROPORTIONAL, 0);
    let _a = funded(&mut state, 3, 1_000);
    let mut e = triggered(&mut state, 500);
    let fin = finalize_epoch(&mut state, &mut e, &id(1), Some(50), 1_020).unwrap();
    assert_eq!(fin.sweep_u64, 20);
    let mut e2 = {
        let (mut e2, _) = start_epoch(&state, &id(1), 9, 0, 0, 5, 3).unwrap();
        trigger_event(&mut state, &mut e2, &oracles(true), id(1), 1, None, None, None, None, 10).unwrap();
        e2
    };
    let fin = finalize_epoch(&mut state, &mut e2, &id(1), Some(5), 1_020).unwrap();
    assert_eq!(fin.sweep_u64, 5);
}

#[test]
fn trigger_errors() {
    let mut state = pool(POLICY_PROPORTIONAL, 0);
    let (mut e, ev) = start_epoch(&state, &id(1), 7, 0, 100, 5, 3).unwrap();
    assert_eq!(ev.end_ts, 100);
    assert_eq!(
        trigger_event(&mut state, &mut e, &oracles(false), id(1), 5, None, None, None, None, 10).unwrap_err(),
        ErrorCode::Unauthorized
    );
    assert_eq!(
        trigger_event(&mut state, &mut e, &oracles(true), id(60), 5, None, None, None, None, 10).unwrap_err(),
        ErrorCode::Unauthorized
    );
    assert_eq!(
        trigger_event(&mut state, &mut e, &oracles(true), id(1), 5, None, None, None, None, 101).unwrap_err(),
        ErrorCode::EpochNotActive
    );
    state.max_stale_secs = 30;
    assert_eq!(
        trigger_event(&mut state, &mut e, &oracles(true), id(1), 5, None, None, None, Some(60), 100).unwrap_err(),
        ErrorCode::EpochNotActive
    );
    state.sev_quad_a_fp = u128::MAX;
    assert_eq!(
        trigger_event(&mut state, &mut e, &oracles(true), id(1), 5, None, None, None, None, 50).unwrap_err(),
        ErrorCode::ArithmeticOverflow
    );
    assert!(!e.triggered && !state.paused);
    state.sev_quad_a_fp = 0;
    trigger_event(&mut state, &mut e, &oracles(true), id(51), 5, None, None, None, Some(80), 100).unwrap();
    assert!(e.triggered && state.paused);
    assert_eq!(state.last_event_ts, 100);
    assert_eq!(
        trigger_event(&mut state, &mut e, &oracles(true), id(1), 5, None, None, None, None, 50).unwrap_err(),
        ErrorCode::EpochAlreadyTriggered
    );
}

#[test]
fn start_epoch_errors() {
    let state = pool(POLICY_PROPORTIONAL, 0);
    assert_eq!(start_epoch(&state, &id(1), 1, 10, 0, 9, 0).err(), Some(ErrorCode::EpochNotActive));
    assert_eq!(start_epoch(&state, &id(1), 1, 10, 10, 20, 0).err(), Some(ErrorCode::EpochNotActive));
    assert!(start_epoch(&state, &id(1), 1, 10, 11, 20, 0).is_ok());
    assert_eq!(start_epoch(&state, &id(2), 1, 10, 11, 20, 0).err(), Some(ErrorCode::Unauthorized));
}

#[test]
fn payout_errors() {
    let mut state = pool(POLICY_PROPORTIONAL, 0);
    let a = funded(&mut state, 3, 1_000);
    let (mut e, _) = start_epoch(&state, &id(1), 7, 0, 0, 5, 3).unwrap();
    let mut claim = ClaimReceipt::unclaimed(7, id(3), 0);
    assert_eq!(payout_user(&mut state, &mut e, &a, &mut claim, id(3), 1_000).unwrap_err(), ErrorCode::EpochNotActive);
    trigger_event(&mut state, &mut e, &oracles(true), id(1), 500, None, None, None, None, 10).unwrap();
    assert_eq!(payout_user(&mut state, &mut e, &a, &mut claim, id(4), 1_000).unwrap_err(), ErrorCode::Unauthorized);
    assert_eq!(payout_user(&mut state, &mut e, &a, &mut claim, id(3), 0).unwrap_err(), ErrorCode::NothingToPayout);
    state.processing = true;
    assert_eq!(payout_user(&mut state, &mut e, &a, &mut claim, id(3), 1_000).unwrap_err(), ErrorCode::Busy);
    assert!(state.processing);
    state.processing = false;
    let empty = UserPosition::new(id(5), 0);
    let mut c5 = ClaimReceipt::unclaimed(7, id(5), 0);
    assert_eq!(payout_user(&mut state, &mut e, &empty, &mut c5, id(5), 1_000).unwrap_err(), ErrorCode::NothingToPayout);
    assert_eq!(claim.claimed_fp, 0);
    assert_eq!(e.total_payout_fp, 0);
}

#[test]
fn severity_curve_values() {
    // 0.5·x² + 2·x + 3 scaled, for x = 10 bps: 50 + 20 + 3 = 73.
    assert_eq!(effective_severity_bps(10, SCALE / 2, 2 * SCALE, 3 * SCALE, 0).unwrap(), 73);
    assert_eq!(effective_severity_bps(10, SCALE / 2, 2 * SCALE, 3 * SCALE, 100).unwrap(), 100);
    assert_eq!(effective_severity_bps(1_000, SCALE, 0, 0, 0).unwrap(), 10_000);
    assert_eq!(effective_severity_bps(0, 0, 0, 0, 250).unwrap(), 250);
    assert_eq!(effective_severity_bps(5, u128::MAX, 0, 0, 0).unwrap_err(), ErrorCode::ArithmeticOverflow);
}

#[test]
fn severity_is_monotone_and_bounded() {
    let mut last = 0;
    for x in [0u128, 1, 10, 50, 99, 100, 101, 500, 5_000, 65_535] {
        let s = effective_severity_bps(x, SCALE / 100, SCALE / 2, 0, 20).unwrap();
        assert!(s >= last);
        assert!((20..=10_000).contains(&s));
        last = s;
    }
}

#[test]
fn weighted_stake_applies_weights() {
    assert_eq!(weighted_stake_fp(1_000, 2_000, 5_000, 10_000).unwrap(), 2_500);
    assert_eq!(weighted_stake_fp(u128::MAX, 0, 2, 0).unwrap_err(), ErrorCode::ArithmeticOverflow);
}

#[test]
fn junior_weight_shifts_share() {
    let mut state = pool(POLICY_PROPORTIONAL, 0);
    set_curve_and_weights(&mut state, &id(1), 0, SCALE, 0, 0, 5_000, 10_000).unwrap();
    let a = funded(&mut state, 3, 1_000);
    let mut b = UserPosition::new(id(4), 1);
    deposit_insurance(&mut state, &mut b, id(4), 1_000, 1, None, None, 1).unwrap();
    let e = triggered(&mut state, 1_000);
    let qa = quote_user_payout(&state, &e, &a, 2_000).unwrap();
    let qb = quote_user_payout(&state, &e, &b, 2_000).unwrap();
    assert_eq!(qa.user_payout_fp, 50 * SCALE);
    assert_eq!(qb.user_payout_fp, 100 * SCALE);
}

#[test]
fn oracle_allowlist() {
    let list = oracles(true);
    assert!(oracle_is_allowed(&list, id(51)));
    assert!(!oracle_is_allowed(&list, id(52)));
    assert!(!oracle_is_allowed(&list, Identity::zero()));
    assert!(is_authorized(&list, &id(1), &id(1)));
    assert!(!is_authorized(&oracles(false), &id(1), &id(1)));
}

#[test]
fn admin_updates() {
    let mut state = pool(POLICY_PROPORTIONAL, 0);
    assert_eq!(set_paused(&mut state, &id(2), true).unwrap_err(), ErrorCode::Unauthorized);
    assert!(!state.paused);
    assert!(set_paused(&mut state, &id(1), true).unwrap().paused);
    assert!(state.paused);
    set_policy(&mut state, &id(1), POLICY_EPOCH_BOUNDED, Some(42)).unwrap();
    assert_eq!(state.payout_policy, POLICY_EPOCH_BOUNDED);
    assert_eq!(state.epoch_cap_fp, 42);
    set_policy(&mut state, &id(1), POLICY_CAPPED, None).unwrap();
    assert_eq!(state.epoch_cap_fp, 42);
    assert_eq!(
        set_curve_and_weights(&mut state, &id(1), 1, 2, 3, 4, 10_001, 0).unwrap_err(),
        ErrorCode::ParamOutOfBounds
    );
    assert_eq!(state.sev_quad_a_fp, 0);
    assert_eq!(set_policy(&mut state, &id(3), POLICY_PROPORTIONAL, None).unwrap_err(), ErrorCode::Unauthorized);
    assert_eq!(
        set_curve_and_weights(&mut state, &id(3), 1, 2, 3, 4, 5, 6).unwrap_err(),
        ErrorCode::Unauthorized
    );
    assert_eq!(state.payout_policy, POLICY_CAPPED);
    let s = pool_stats(&state, 3);
    assert_eq!(s.pool_balance_fp, 3 * SCALE);
    assert_eq!(s.epoch_cap_fp, 42);
}

#[test]
fn views_copy_fields() {
    let mut state = pool(POLICY_PROPORTIONAL, 0);
    let a = funded(&mut state, 3, 12);
    let v = user_position_view(&a);
    assert_eq!(v.senior_deposited_fp, 12 * SCALE);
    assert_eq!(v.owner, id(3));
    let e = triggered(&mut state, 300);
    let es = epoch_stats(&e);
    assert_eq!(es.total_stake_snapshot_fp, 12 * SCALE);
    assert_eq!(es.severity_bps, 300);
    assert!(es.triggered && !es.closed);
}

#[test]
fn evidence_older_than_any_bound_is_stale() {
    let mut state = pool(POLICY_PROPORTIONAL, 0);
    state.max_stale_secs = i64::MAX;
    let (mut e, _) = start_epoch(&state, &id(1), 7, -10, 0, 0, 3).unwrap();
    let r = trigger_event(&mut state, &mut e, &oracles(true), id(1), 5, None, None, None, Some(i64::MIN), 0);
    assert_eq!(r.unwrap_err(), ErrorCode::EpochNotActive);
    assert!(!e.triggered && !state.paused);
    trigger_event(&mut state, &mut e, &oracles(true), id(1), 5, None, None, None, Some(-5), 0).unwrap();
    assert_eq!(e.evidence_ts, -5);
}
