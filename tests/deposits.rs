use tail_risk_pool::error::ErrorCode;
use tail_risk_pool::fixed::SCALE;
use tail_risk_pool::identity::Identity;
use tail_risk_pool::pool::{initialize, InitializeParams, State, POLICY_PROPORTIONAL};
use tail_risk_pool::position::{deposit_insurance, withdraw, UserPosition};
use tail_risk_pool::views::{quote_deposit, quote_withdraw};

fn id(n: u8) -> Identity {
    Identity { bytes: [n; 32] }
}

fn params(protocol_fee_bps: u16, referral_fee_bps: u16, lockup_secs: i64) -> InitializeParams {
    InitializeParams {
        protocol_treasury: id(9),
        payout_policy: POLICY_PROPORTIONAL,
        user_deposit_cap_fp: 1_000_000 * SCALE,
        min_deposit_fp: SCALE,
        protocol_fee_bps,
        referral_fee_bps,
        lockup_secs,
        min_seconds_between_deposits: 0,
        epoch_cap_fp: 0,
        rolling_mode: false,
        max_stale_secs: 0,
        sev_quad_a_fp: 0,
        sev_quad_b_fp: SCALE,
        sev_quad_c_fp: 0,
        severity_floor_bps: 0,
        tranche_weight_senior_bps: 10_000,
        tranche_weight_junior_bps: 10_000,
    }
}

fn pool(protocol_fee_bps: u16, referral_fee_bps: u16, lockup_secs: i64) -> State {
    initialize(id(1), id(2), params(protocol_fee_bps, referral_fee_bps, lockup_secs), 255).unwrap().0
}

#[test]
fn protocol_fee_scenario() {
    let mut state = pool(50, 0, 0);
    let mut pos = UserPosition::new(id(3), 1);
    let out = deposit_insurance(&mut state, &mut pos, id(3), 1_000, 0, None, None, 10).unwrap();
    assert_eq!(out.deposited.amount_fp, 995 * SCALE);
    assert_eq!(out.protocol_fee_u64, 5);
    assert_eq!(out.referral_fee_u64, 0);
    assert_eq!(pos.senior_lots.len, 1);
    assert_eq!(pos.senior_lots.buf[pos.senior_lots.head as usize].amount_fp, 995 * SCALE);
    assert_eq!(pos.senior_deposited_fp, 995 * SCALE);
    assert_eq!(pos.senior_withdrawable_fp, 0);
    assert_eq!(state.total_deposited_fp, 995 * SCALE);
}

#[test]
fn referral_fee_is_paid_to_a_matching_referrer() {
    let mut state = pool(50, 100, 0);
    let mut pos = UserPosition::new(id(3), 1);
    let out = deposit_insurance(&mut state, &mut pos, id(3), 1_000, 1, Some(id(7)), Some(id(7)), 10).unwrap();
    assert_eq!(out.protocol_fee_u64, 5);
    assert_eq!(out.referral_fee_u64, 10);
    assert_eq!(out.deposited.amount_fp, 985 * SCALE);
    assert_eq!(out.deposited.referrer, id(7));
    assert_eq!(pos.referrer, id(7));
    assert_eq!(pos.junior_deposited_fp, 985 * SCALE);
}

#[test]
fn referral_fee_with_wrong_account_owner_is_refused() {
    let mut state = pool(50, 100, 0);
    let mut pos = UserPosition::new(id(3), 1);
    let before = state.total_deposited_fp;
    let r = deposit_insurance(&mut state, &mut pos, id(3), 1_000, 0, Some(id(7)), Some(id(8)), 10);
    assert_eq!(r.unwrap_err(), ErrorCode::Unauthorized);
    let r = deposit_insurance(&mut state, &mut pos, id(3), 1_000, 0, Some(id(7)), None, 10);
    assert_eq!(r.unwrap_err(), ErrorCode::Unauthorized);
    assert_eq!(state.total_deposited_fp, before);
    assert_eq!(pos.senior_lots.len, 0);
}

#[test]
fn zero_referrer_pays_no_referral_fee() {
    let mut state = pool(0, 100, 0);
    let mut pos = UserPosition::new(id(3), 1);
    let out = deposit_insurance(&mut state, &mut pos, id(3), 1_000, 0, Some(Identity::zero()), None, 10).unwrap();
    assert_eq!(out.referral_fee_u64, 0);
    assert_eq!(out.deposited.amount_fp, 1_000 * SCALE);
}

#[test]
fn lockup_scenario() {
    let mut state = pool(0, 0, 86_400);
    let mut pos = UserPosition::new(id(3), 1);
    deposit_insurance(&mut state, &mut pos, id(3), 1_000, 0, None, None, 0).unwrap();
    let r = withdraw(&mut state, &mut pos, &id(3), 1_000, 0, 86_399);
    assert_eq!(r.unwrap_err(), ErrorCode::InsufficientMaturedFunds);
    assert_eq!(pos.senior_deposited_fp, 1_000 * SCALE);
    assert_eq!(state.total_deposited_fp, 1_000 * SCALE);
    let w = withdraw(&mut state, &mut pos, &id(3), 1_000, 0, 86_400).unwrap();
    assert_eq!(w.amount_fp, 1_000 * SCALE);
    assert_eq!(pos.senior_deposited_fp, 0);
    assert_eq!(pos.senior_withdrawable_fp, 0);
    assert_eq!(state.total_deposited_fp, 0);
}

#[test]
fn fifo_release_order() {
    let mut state = pool(0, 0, 1_000);
    let mut pos = UserPosition::new(id(3), 1);
    deposit_insurance(&mut state, &mut pos, id(3), 10, 0, None, None, 0).unwrap();
    deposit_insurance(&mut state, &mut pos, id(3), 20, 0, None, None, 500).unwrap();
    // At t=1000 only the first lot is mature.
    let r = withdraw(&mut state, &mut pos, &id(3), 30, 0, 1_000);
    assert_eq!(r.unwrap_err(), ErrorCode::InsufficientMaturedFunds);
    // The first lot stays released after the failed attempt.
    assert_eq!(pos.senior_withdrawable_fp, 10 * SCALE);
    assert_eq!(pos.senior_lots.len, 1);
    assert_eq!(pos.senior_lots.buf[pos.senior_lots.head as usize].amount_fp, 20 * SCALE);
    withdraw(&mut state, &mut pos, &id(3), 10, 0, 1_000).unwrap();
    let r = withdraw(&mut state, &mut pos, &id(3), 20, 0, 1_499);
    assert_eq!(r.unwrap_err(), ErrorCode::InsufficientMaturedFunds);
    withdraw(&mut state, &mut pos, &id(3), 20, 0, 1_500).unwrap();
    assert_eq!(pos.senior_deposited_fp, 0);
    assert_eq!(state.total_deposited_fp, 0);
}

#[test]
fn conservation_over_two_positions() {
    let mut state = pool(50, 0, 0);
    let mut a = UserPosition::new(id(3), 1);
    let mut b = UserPosition::new(id(4), 1);
    deposit_insurance(&mut state, &mut a, id(3), 1_000, 0, None, None, 1).unwrap();
    deposit_insurance(&mut state, &mut b, id(4), 400, 1, None, None, 2).unwrap();
    deposit_insurance(&mut state, &mut a, id(3), 200, 1, None, None, 3).unwrap();
    let _ = deposit_insurance(&mut state, &mut b, id(4), 0, 1, None, None, 4);
    withdraw(&mut state, &mut a, &id(3), 500, 0, 5).unwrap();
    let _ = withdraw(&mut state, &mut b, &id(4), 1_000, 1, 6);
    let sum = a.senior_deposited_fp + a.junior_deposited_fp + b.senior_deposited_fp + b.junior_deposited_fp;
    assert_eq!(state.total_deposited_fp, sum);
    assert!(a.senior_withdrawable_fp <= a.senior_deposited_fp);
    assert!(b.junior_withdrawable_fp <= b.junior_deposited_fp);
    assert!(a.is_wf() && b.is_wf());
}

#[test]
fn deposit_errors() {
    let mut state = pool(0, 0, 0);
    let mut pos = UserPosition::new(id(3), 1);
    assert_eq!(deposit_insurance(&mut state, &mut pos, id(3), 0, 0, None, None, 1).unwrap_err(), ErrorCode::MinDeposit);
    assert_eq!(deposit_insurance(&mut state, &mut pos, id(3), 5, 2, None, None, 1).unwrap_err(), ErrorCode::Unauthorized);
    assert_eq!(
        deposit_insurance(&mut state, &mut pos, id(3), 1_000_001, 0, None, None, 1).unwrap_err(),
        ErrorCode::UserCapExceeded
    );
    state.paused = true;
    assert_eq!(deposit_insurance(&mut state, &mut pos, id(3), 5, 0, None, None, 1).unwrap_err(), ErrorCode::Paused);
    assert_eq!(state.total_deposited_fp, 0);
    assert_eq!(pos.senior_lots.len, 0);
}

#[test]
fn deposit_cooldown() {
    let mut p = params(0, 0, 0);
    p.min_seconds_between_deposits = 60;
    let mut state = initialize(id(1), id(2), p, 255).unwrap().0;
    let mut pos = UserPosition::new(id(3), 1);
    deposit_insurance(&mut state, &mut pos, id(3), 5, 0, None, None, 100).unwrap();
    assert_eq!(
        deposit_insurance(&mut state, &mut pos, id(3), 5, 0, None, None, 159).unwrap_err(),
        ErrorCode::DepositCooldown
    );
    deposit_insurance(&mut state, &mut pos, id(3), 5, 0, None, None, 160).unwrap();
    assert_eq!(pos.senior_deposited_fp, 10 * SCALE);
}

#[test]
fn lot_queue_capacity() {
    let mut state = pool(0, 0, 0);
    let mut pos = UserPosition::new(id(3), 1);
    for t in 0..16 {
        deposit_insurance(&mut state, &mut pos, id(3), 1, 1, None, None, t).unwrap();
    }
    assert_eq!(
        deposit_insurance(&mut state, &mut pos, id(3), 1, 1, None, None, 16).unwrap_err(),
        ErrorCode::CapacityExceeded
    );
    assert_eq!(pos.junior_deposited_fp, 16 * SCALE);
    // Releasing lots frees room in the ring.
    withdraw(&mut state, &mut pos, &id(3), 3, 1, 100).unwrap();
    deposit_insurance(&mut state, &mut pos, id(3), 1, 1, None, None, 101).unwrap();
    assert_eq!(pos.junior_lots.len, 14);
    assert_eq!(pos.junior_withdrawable_fp, 0);
    assert_eq!(pos.junior_deposited_fp, 14 * SCALE);
}

#[test]
fn release_stops_once_amount_is_covered() {
    let mut state = pool(0, 0, 10);
    let mut pos = UserPosition::new(id(3), 1);
    deposit_insurance(&mut state, &mut pos, id(3), 10, 0, None, None, 0).unwrap();
    deposit_insurance(&mut state, &mut pos, id(3), 20, 0, None, None, 1).unwrap();
    withdraw(&mut state, &mut pos, &id(3), 5, 0, 100).unwrap();
    assert_eq!(pos.senior_lots.len, 1);
    assert_eq!(pos.senior_withdrawable_fp, 5 * SCALE);
    withdraw(&mut state, &mut pos, &id(3), 25, 0, 100).unwrap();
    assert_eq!(pos.senior_lots.len, 0);
    assert_eq!(pos.senior_withdrawable_fp, 0);
    assert_eq!(pos.senior_deposited_fp, 0);
}

#[test]
fn withdraw_errors() {
    let mut state = pool(0, 0, 0);
    let mut pos = UserPosition::new(id(3), 1);
    deposit_insurance(&mut state, &mut pos, id(3), 5, 0, None, None, 1).unwrap();
    assert_eq!(withdraw(&mut state, &mut pos, &id(3), 1, 2, 2).unwrap_err(), ErrorCode::Unauthorized);
    assert_eq!(withdraw(&mut state, &mut pos, &id(4), 1, 0, 2).unwrap_err(), ErrorCode::Unauthorized);
    assert_eq!(withdraw(&mut state, &mut pos, &id(3), 6, 0, 2).unwrap_err(), ErrorCode::InsufficientMaturedFunds);
    // The mature lot was released by the failed attempt.
    assert_eq!(pos.senior_lots.len, 0);
    assert_eq!(pos.senior_withdrawable_fp, 5 * SCALE);
    // Covered by the position but not by the pool's recorded total.
    state.total_deposited_fp = 0;
    assert_eq!(withdraw(&mut state, &mut pos, &id(3), 5, 0, 2).unwrap_err(), ErrorCode::ArithmeticOverflow);
    assert_eq!(pos.senior_withdrawable_fp, 5 * SCALE);
    assert_eq!(pos.senior_deposited_fp, 5 * SCALE);
    state.paused = true;
    assert_eq!(withdraw(&mut state, &mut pos, &id(3), 1, 0, 2).unwrap_err(), ErrorCode::Paused);
}

#[test]
fn quotes_for_deposit_and_withdraw() {
    let state = pool(50, 100, 0);
    let q = quote_deposit(&state, 1_000).unwrap();
    assert_eq!(q.net_fp, 985 * SCALE);
    assert_eq!(q.protocol_fee_u64, 5);
    assert_eq!(q.referral_fee_u64, 10);
    let mut pos = UserPosition::new(id(3), 1);
    pos.junior_withdrawable_fp = 7 * SCALE;
    pos.junior_deposited_fp = 7 * SCALE;
    let w = quote_withdraw(&pos, 7, 1).unwrap();
    assert!(w.can_withdraw);
    assert_eq!(w.available_fp, 7 * SCALE);
    assert_eq!(w.requested_fp, 7 * SCALE);
    assert!(!quote_withdraw(&pos, 8, 1).unwrap().can_withdraw);
    assert_eq!(quote_withdraw(&pos, 1, 5).unwrap_err(), ErrorCode::Unauthorized);
}

#[test]
fn initialize_checks_bounds() {
    assert_eq!(initialize(id(1), id(2), params(1_001, 0, 0), 1).unwrap_err(), ErrorCode::ParamOutOfBounds);
    let mut p = params(0, 0, 0);
    p.tranche_weight_junior_bps = 10_001;
    assert_eq!(initialize(id(1), id(2), p, 1).unwrap_err(), ErrorCode::ParamOutOfBounds);
    let (s, ev) = initialize(id(1), id(2), params(1_000, 1_000, 0), 1).unwrap();
    assert_eq!(ev.admin, id(1));
    assert!(!s.paused && !s.processing);
    assert_eq!(s.total_deposited_fp, 0);
}

#[test]
fn sub_unit_referral_fee_is_deducted() {
    let mut state = pool(0, 50, 0);
    let mut pos = UserPosition::new(id(3), 1);
    let out = deposit_insurance(&mut state, &mut pos, id(3), 1, 0, Some(id(7)), Some(id(7)), 10).unwrap();
    assert_eq!(out.deposited.amount_fp, 995_000);
    assert_eq!(out.referral_fee_u64, 0);
    assert_eq!(pos.referrer, id(7));
    assert_eq!(state.total_deposited_fp, 995_000);
}

#[test]
fn withdrawal_above_pool_total_reports_insufficient_matured_funds() {
    let mut state = pool(0, 0, 100);
    let mut pos = UserPosition::new(id(3), 1);
    deposit_insurance(&mut state, &mut pos, id(3), 1_000, 0, None, None, 0).unwrap();
    let r = withdraw(&mut state, &mut pos, &id(3), 2_000, 0, 200);
    assert_eq!(r.unwrap_err(), ErrorCode::InsufficientMaturedFunds);
    assert_eq!(pos.senior_lots.len, 0);
    assert_eq!(pos.senior_withdrawable_fp, 1_000 * SCALE);
    assert_eq!(pos.senior_deposited_fp, 1_000 * SCALE);
    assert_eq!(state.total_deposited_fp, 1_000 * SCALE);
}
