//! A depositor's position: per-tranche balances and lot queues, with the
//! deposit and withdraw operations that move them.
use vstd::prelude::*;

use crate::error::ErrorCode;
use crate::events::{Deposited, Withdrawn};
use crate::fixed::{from_fp_to_u64, mul_div_floor_u128, to_fp_u64, BPS_DENOM, SCALE};
use crate::identity::Identity;
use crate::lots::{
    lemma_lots_sum_nonneg, lemma_lots_sum_push, lots_sum, mature_and_consume, release_count,
    push_lot, sat_diff, saturating_diff, Lot, Lots, MAX_LOTS,
};
use crate::pool::State;

verus! {

/// Tranche code of the senior tranche; 1 is the junior tranche.
pub const SENIOR: u8 = 0;

/// Tranche code of the junior tranche.
pub const JUNIOR: u8 = 1;

/// The tranche that `tranche` is not.
pub open spec fn other_tranche(tranche: u8) -> u8 {
    if tranche == SENIOR { JUNIOR } else { SENIOR }
}

/// One depositor's holdings in both tranches.
#[derive(Clone, Copy, Debug)]
pub struct UserPosition {
    pub owner: Identity,
    pub senior_deposited_fp: u128,
    pub junior_deposited_fp: u128,
    pub senior_withdrawable_fp: u128,
    pub junior_withdrawable_fp: u128,
    pub senior_lots: Lots,
    pub junior_lots: Lots,
    pub last_deposit_ts: i64,
    /// The zero identity when no referrer was recorded.
    pub referrer: Identity,
    pub bump: u8,
}

/// A tranche's deposits are its matured balance plus its queued lots.
pub open spec fn tranche_wf(deposited: u128, withdrawable: u128, lots: Lots) -> bool {
    &&& lots.wf()
    &&& deposited == withdrawable + lots_sum(lots.view())
}

/// What the position holds over both tranches.
pub open spec fn position_total(p: UserPosition) -> int {
    p.senior_deposited_fp + p.junior_deposited_fp
}

impl UserPosition {
    /// Both tranches are consistent: deposited = withdrawable + queued lots.
    /// In particular the withdrawable balance never exceeds the deposits.
    pub open spec fn wf(&self) -> bool {
        &&& tranche_wf(self.senior_deposited_fp, self.senior_withdrawable_fp, self.senior_lots)
        &&& tranche_wf(self.junior_deposited_fp, self.junior_withdrawable_fp, self.junior_lots)
    }

    pub open spec fn deposited_of(&self, tranche: u8) -> u128 {
        if tranche == SENIOR { self.senior_deposited_fp } else { self.junior_deposited_fp }
    }

    pub open spec fn withdrawable_of(&self, tranche: u8) -> u128 {
        if tranche == SENIOR { self.senior_withdrawable_fp } else { self.junior_withdrawable_fp }
    }

    pub open spec fn lots_of(&self, tranche: u8) -> Lots {
        if tranche == SENIOR { self.senior_lots } else { self.junior_lots }
    }

    /// An empty position for `owner`.
    pub fn new(owner: Identity, bump: u8) -> (r: UserPosition)
        ensures
            r.wf(),
            r.owner == owner,
            r.bump == bump,
            position_total(r) == 0,
            r.senior_withdrawable_fp == 0 && r.junior_withdrawable_fp == 0,
            r.senior_lots.view().len() == 0 && r.junior_lots.view().len() == 0,
            r.last_deposit_ts == 0,
            r.referrer.is_zero_spec(),
    {
        let r = UserPosition {
            owner,
            senior_deposited_fp: 0,
            junior_deposited_fp: 0,
            senior_withdrawable_fp: 0,
            junior_withdrawable_fp: 0,
            senior_lots: Lots::new(),
            junior_lots: Lots::new(),
            last_deposit_ts: 0,
            referrer: Identity::zero(),
            bump,
        };
        assert(r.senior_lots.view() =~= Seq::<Lot>::empty());
        assert(r.junior_lots.view() =~= Seq::<Lot>::empty());
        r
    }

    /// Whether the position is consistent (see `wf`).
    pub fn is_wf(&self) -> (r: bool)
        ensures
            r == self.wf(),
    {
        tranche_consistent(self.senior_deposited_fp, self.senior_withdrawable_fp, &self.senior_lots)
            && tranche_consistent(self.junior_deposited_fp, self.junior_withdrawable_fp, &self.junior_lots)
    }
}

fn tranche_consistent(deposited: u128, withdrawable: u128, lots: &Lots) -> (r: bool)
    ensures
        r == tranche_wf(deposited, withdrawable, *lots),
{
    if lots.head as usize >= MAX_LOTS || lots.len as usize > MAX_LOTS {
        return false;
    }
    let ghost s = lots.view();
    let mut total: u128 = withdrawable;
    let mut i: usize = 0;
    let n = lots.len as usize;
    proof {
        assert(s.subrange(0, 0) =~= Seq::<Lot>::empty());
        assert(lots_sum(Seq::<Lot>::empty()) == 0);
    }
    while i < n
        invariant
            lots.wf(),
            s == lots.view(),
            n == s.len(),
            0 <= i <= n,
            total == withdrawable + lots_sum(s.subrange(0, i as int)),
        decreases n - i,
    {
        let lot = lots.buf[(lots.head as usize + i) % MAX_LOTS];
        assert(lot == s[i as int]);
        proof {
            assert(s.subrange(0, i + 1) =~= s.subrange(0, i as int).push(lot));
            lemma_lots_sum_push(s.subrange(0, i as int), lot);
        }
        match total.checked_add(lot.amount_fp) {
            Some(t) => total = t,
            None => {
                proof {
                    lemma_prefix_sum_le(s, i + 1);
                }
                return false;
            },
        }
        i = i + 1;
    }
    assert(s.subrange(0, n as int) =~= s);
    total == deposited
}

proof fn lemma_prefix_sum_le(s: Seq<Lot>, k: int)
    requires
        0 <= k <= s.len(),
    ensures
        lots_sum(s.subrange(0, k)) <= lots_sum(s),
    decreases s.len() - k,
{
    if k < s.len() {
        assert(s.subrange(0, k + 1) =~= s.subrange(0, k).push(s[k]));
        lemma_lots_sum_push(s.subrange(0, k), s[k]);
        lemma_prefix_sum_le(s, k + 1);
    } else {
        assert(s.subrange(0, k) =~= s);
    }
}

/// Whether the per-depositor cooldown still blocks a deposit at `now`.
pub open spec fn cooldown_blocks(last_deposit_ts: i64, min_seconds: i64, now: i64) -> bool {
    last_deposit_ts != 0 && min_seconds > 0 && sat_diff(now, last_deposit_ts) < min_seconds
}

/// A fee of `fee_bps` basis points on a scaled amount, rounded down.
pub open spec fn fee_of(amount_fp: int, fee_bps: int) -> int {
    amount_fp * fee_bps / (BPS_DENOM as int)
}

/// What a deposit credits after both fees (never below zero).
pub open spec fn net_of(amount_fp: int, protocol_fee_bps: int, referral_fee_bps: int) -> int {
    let fees = fee_of(amount_fp, protocol_fee_bps) + fee_of(amount_fp, referral_fee_bps);
    if amount_fp >= fees { amount_fp - fees } else { 0 }
}

/// A referral fee is charged when a non-zero referrer is named and the fee,
/// in scaled units, is not zero.
pub open spec fn referral_applies(referrer_opt: Option<Identity>, amount_fp: int, referral_fee_bps: int) -> bool {
    &&& referrer_opt matches Some(r) && !r.is_zero_spec()
    &&& fee_of(amount_fp, referral_fee_bps) > 0
}

/// A charged referral fee is also transferred: it is at least one whole
/// token unit.
pub open spec fn referral_transferred(referrer_opt: Option<Identity>, amount_fp: int, referral_fee_bps: int) -> bool {
    &&& referral_applies(referrer_opt, amount_fp, referral_fee_bps)
    &&& fee_of(amount_fp, referral_fee_bps) / (SCALE as int) > 0
}

/// What a deposit credits: the amount less the protocol fee and, when one is
/// paid, the referral fee.
pub open spec fn deposit_net(state: State, amount_fp: int, referrer_opt: Option<Identity>) -> int {
    let referral_bps = if referral_applies(referrer_opt, amount_fp, state.referral_fee_bps as int) {
        state.referral_fee_bps as int
    } else {
        0
    };
    net_of(amount_fp, state.protocol_fee_bps as int, referral_bps)
}

/// The first check that a deposit fails, if any, in the order they are made.
pub open spec fn deposit_error(
    state: State,
    position: UserPosition,
    amount_usdc: u64,
    tranche: u8,
    referrer_opt: Option<Identity>,
    referrer_account_owner: Option<Identity>,
    now: i64,
) -> Option<ErrorCode> {
    let amount_fp = amount_usdc * SCALE;
    let net = deposit_net(state, amount_fp, referrer_opt);
    let senior_after = position.senior_deposited_fp + if tranche == SENIOR { net } else { 0 };
    let junior_after = position.junior_deposited_fp + if tranche == SENIOR { 0 } else { net };
    if state.paused {
        Some(ErrorCode::Paused)
    } else if amount_fp < state.min_deposit_fp {
        Some(ErrorCode::MinDeposit)
    } else if cooldown_blocks(position.last_deposit_ts, state.min_seconds_between_deposits, now) {
        Some(ErrorCode::DepositCooldown)
    } else if tranche > JUNIOR {
        Some(ErrorCode::Unauthorized)
    } else if referral_transferred(referrer_opt, amount_fp, state.referral_fee_bps as int) && !(
    referrer_account_owner matches Some(o) && o.bytes@ == referrer_opt->Some_0.bytes@) {
        Some(ErrorCode::Unauthorized)
    } else if position.lots_of(tranche).len >= MAX_LOTS {
        Some(ErrorCode::CapacityExceeded)
    } else if senior_after > u128::MAX || junior_after > u128::MAX {
        Some(ErrorCode::ArithmeticOverflow)
    } else if senior_after + junior_after > state.user_deposit_cap_fp {
        Some(ErrorCode::UserCapExceeded)
    } else if state.total_deposited_fp + net > u128::MAX {
        Some(ErrorCode::ArithmeticOverflow)
    } else {
        None
    }
}

/// What a successful deposit asks the ledger to move, besides the deposit itself.
#[derive(Clone, Copy, Debug)]
pub struct DepositOutcome {
    pub deposited: Deposited,
    /// Protocol fee in whole token units, from the vault to the treasury.
    pub protocol_fee_u64: u64,
    /// Referral fee in whole token units, from the vault to the referrer;
    /// zero when no referral fee is paid.
    pub referral_fee_u64: u64,
}

/// Credits a deposit of `amount_usdc` whole token units into `tranche`
/// (0 senior, 1 junior), net of the protocol fee and of the referral fee
/// when a valid referrer is named and that fee is non-zero in scaled units,
/// as a new lot
/// dated `now`. On success the position's deposits in that tranche and the
/// pool's total both grow by the net amount; on failure nothing changes.
/// `referrer_account_owner` is the owner of the token account offered to
/// receive the referral fee, if any.
pub fn deposit_insurance(
    state: &mut State,
    position: &mut UserPosition,
    user: Identity,
    amount_usdc: u64,
    tranche: u8,
    referrer_opt: Option<Identity>,
    referrer_account_owner: Option<Identity>,
    now: i64,
) -> (r: Result<DepositOutcome, ErrorCode>)
    requires
        old(state).wf(),
        old(position).wf(),
    ensures
        final(position).wf(),
        ({
            let amount_fp = amount_usdc * SCALE;
            let pf = fee_of(amount_fp, old(state).protocol_fee_bps as int);
            let rf = fee_of(amount_fp, old(state).referral_fee_bps as int);
            let net = deposit_net(*old(state), amount_fp, referrer_opt);
            let refers = referral_applies(referrer_opt, amount_fp, old(state).referral_fee_bps as int);
            let err = deposit_error(*old(state), *old(position), amount_usdc, tranche, referrer_opt, referrer_account_owner, now);
            &&& err matches Some(e) ==> r == Err::<DepositOutcome, ErrorCode>(e) && *final(state)
                == *old(state) && *final(position) == *old(position)
            &&& err is None ==> {
                &&& r is Ok
                &&& *final(state) == (State { total_deposited_fp: (old(state).total_deposited_fp + net) as u128, ..*old(state) })
                &&& final(position).owner == user
                &&& final(position).last_deposit_ts == now
                &&& final(position).referrer == if refers { referrer_opt->Some_0 } else { old(position).referrer }
                &&& final(position).bump == old(position).bump
                &&& final(position).deposited_of(tranche) == old(position).deposited_of(tranche) + net
                &&& final(position).withdrawable_of(tranche) == old(position).withdrawable_of(tranche)
                &&& final(position).lots_of(tranche).view() == old(position).lots_of(tranche).view().push(
                    Lot { amount_fp: net as u128, ts: now },
                )
                &&& final(position).deposited_of(other_tranche(tranche)) == old(position).deposited_of(other_tranche(tranche))
                &&& final(position).withdrawable_of(other_tranche(tranche)) == old(position).withdrawable_of(other_tranche(tranche))
                &&& final(position).lots_of(other_tranche(tranche)) == old(position).lots_of(other_tranche(tranche))
                &&& r->Ok_0.deposited == (Deposited {
                    owner: user,
                    amount_fp: net as u128,
                    referrer: final(position).referrer,
                    tranche,
                })
                &&& r->Ok_0.protocol_fee_u64 == pf / (SCALE as int)
                &&& r->Ok_0.referral_fee_u64 == if refers { rf / (SCALE as int) } else { 0 }
            }
        }),
        final(state).total_deposited_fp - old(state).total_deposited_fp == position_total(
            *final(position),
        ) - position_total(*old(position)),
{
    if state.paused {
        return Err(ErrorCode::Paused);
    }
    let amount_fp = match to_fp_u64(amount_usdc) {
        Ok(v) => v,
        Err(e) => return Err(e),
    };
    if amount_fp < state.min_deposit_fp {
        return Err(ErrorCode::MinDeposit);
    }
    if position.last_deposit_ts != 0 && state.min_seconds_between_deposits > 0 {
        if saturating_diff(now, position.last_deposit_ts) < state.min_seconds_between_deposits {
            return Err(ErrorCode::DepositCooldown);
        }
    }
    if tranche > JUNIOR {
        return Err(ErrorCode::Unauthorized);
    }
    assert(amount_fp * (state.protocol_fee_bps as int) <= u128::MAX) by (nonlinear_arith)
        requires amount_fp <= u64::MAX * SCALE, state.protocol_fee_bps <= u16::MAX;
    assert(amount_fp * (state.referral_fee_bps as int) <= u128::MAX) by (nonlinear_arith)
        requires amount_fp <= u64::MAX * SCALE, state.referral_fee_bps <= u16::MAX;
    let proto_fee_fp = match mul_div_floor_u128(amount_fp, state.protocol_fee_bps as u128, BPS_DENOM) {
        Ok(v) => v,
        Err(e) => return Err(e),
    };
    let ref_fee_fp = match mul_div_floor_u128(amount_fp, state.referral_fee_bps as u128, BPS_DENOM) {
        Ok(v) => v,
        Err(e) => return Err(e),
    };
    assert(proto_fee_fp <= amount_fp) by (nonlinear_arith)
        requires proto_fee_fp == amount_fp * (state.protocol_fee_bps as int) / 10000, state.protocol_fee_bps <= 1000, amount_fp >= 0;
    assert(ref_fee_fp <= amount_fp) by (nonlinear_arith)
        requires ref_fee_fp == amount_fp * (state.referral_fee_bps as int) / 10000, state.referral_fee_bps <= 1000, amount_fp >= 0;
    let proto_fee_u64 = match from_fp_to_u64(proto_fee_fp) {
        Ok(v) => v,
        Err(e) => return Err(e),
    };
    let ref_fee_u64 = match from_fp_to_u64(ref_fee_fp) {
        Ok(v) => v,
        Err(e) => return Err(e),
    };
    let mut p = *position;
    let mut referral_u64: u64 = 0;
    let mut referral_fp: u128 = 0;
    if let Some(refer) = referrer_opt {
        if !refer.is_zero() && ref_fee_fp > 0 {
            if ref_fee_u64 > 0 {
                match referrer_account_owner {
                    None => return Err(ErrorCode::Unauthorized),
                    Some(o) => {
                        if !refer.same_as(&o) {
                            return Err(ErrorCode::Unauthorized);
                        }
                    },
                }
            }
            referral_u64 = ref_fee_u64;
            referral_fp = ref_fee_fp;
            p.referrer = refer;
        }
    }
    let fees = proto_fee_fp + referral_fp;
    let net_fp = if amount_fp >= fees { amount_fp - fees } else { 0 };
    p.owner = user;
    let lot = Lot { amount_fp: net_fp, ts: now };
    proof {
        lemma_lots_sum_push(p.lots_of(tranche).view(), lot);
        lemma_lots_sum_nonneg(p.senior_lots.view());
        lemma_lots_sum_nonneg(p.junior_lots.view());
    }
    if tranche == SENIOR {
        match push_lot(&mut p.senior_lots, lot) {
            Ok(()) => {},
            Err(e) => return Err(e),
        }
        p.senior_deposited_fp = match p.senior_deposited_fp.checked_add(net_fp) {
            Some(v) => v,
            None => return Err(ErrorCode::ArithmeticOverflow),
        };
    } else {
        match push_lot(&mut p.junior_lots, lot) {
            Ok(()) => {},
            Err(e) => return Err(e),
        }
        p.junior_deposited_fp = match p.junior_deposited_fp.checked_add(net_fp) {
            Some(v) => v,
            None => return Err(ErrorCode::ArithmeticOverflow),
        };
    }
    p.last_deposit_ts = now;
    match p.senior_deposited_fp.checked_add(p.junior_deposited_fp) {
        Some(user_total) => {
            if user_total > state.user_deposit_cap_fp {
                return Err(ErrorCode::UserCapExceeded);
            }
        },
        None => return Err(ErrorCode::UserCapExceeded),
    }
    let new_total = match state.total_deposited_fp.checked_add(net_fp) {
        Some(v) => v,
        None => return Err(ErrorCode::ArithmeticOverflow),
    };
    state.total_deposited_fp = new_total;
    *position = p;
    Ok(DepositOutcome {
        deposited: Deposited { owner: user, amount_fp: net_fp, referrer: p.referrer, tranche },
        protocol_fee_u64: proto_fee_u64,
        referral_fee_u64: referral_u64,
    })
}

/// How many lots of `tranche` a withdrawal of `amount_fp` releases.
pub open spec fn released_lots(p: UserPosition, tranche: u8, lockup_secs: i64, now: i64, amount_fp: int) -> int {
    release_count(p.lots_of(tranche).view(), lockup_secs, now, p.withdrawable_of(tranche) as int, amount_fp) as int
}

/// What the withdrawable balance of `tranche` becomes once a withdrawal of
/// `amount_fp` has released lots.
pub open spec fn released_of(p: UserPosition, tranche: u8, lockup_secs: i64, now: i64, amount_fp: int) -> int {
    let s = p.lots_of(tranche).view();
    p.withdrawable_of(tranche) + lots_sum(s.subrange(0, released_lots(p, tranche, lockup_secs, now, amount_fp)))
}

/// The lots of `tranche` still queued once a withdrawal of `amount_fp` has
/// released lots.
pub open spec fn unreleased_of(p: UserPosition, tranche: u8, lockup_secs: i64, now: i64, amount_fp: int) -> Seq<Lot> {
    let s = p.lots_of(tranche).view();
    s.subrange(released_lots(p, tranche, lockup_secs, now, amount_fp), s.len() as int)
}

/// Withdraws `amount_usdc` whole token units from `tranche` (0 senior,
/// 1 junior) for the position's owner `user`. Mature lots at the front of the tranche's queue are first
/// released into its withdrawable balance, oldest first, until it covers the
/// amount; they stay released even when the withdrawal then fails with
/// `InsufficientMaturedFunds`, whatever the pool's total. When the released
/// balance covers the amount but the pool's recorded total does not, the call
/// fails with `ArithmeticOverflow` and takes nothing (the released lots stay
/// released). On success the tranche's withdrawable balance and deposits and
/// the pool's total all drop by the amount; the caller moves the tokens to
/// the user.
pub fn withdraw(
    state: &mut State,
    position: &mut UserPosition,
    user: &Identity,
    amount_usdc: u64,
    tranche: u8,
    now: i64,
) -> (r: Result<Withdrawn, ErrorCode>)
    requires
        old(position).wf(),
    ensures
        final(position).wf(),
        ({
            let amount_fp = amount_usdc * SCALE;
            let lockup = old(state).lockup_secs;
            let released = released_of(*old(position), tranche, lockup, now, amount_fp);
            let early = if old(position).owner.bytes@ != user.bytes@ {
                Some(ErrorCode::Unauthorized)
            } else if old(state).paused {
                Some(ErrorCode::Paused)
            } else if tranche > JUNIOR {
                Some(ErrorCode::Unauthorized)
            } else {
                None::<ErrorCode>
            };
            &&& early matches Some(e) ==> r == Err::<Withdrawn, ErrorCode>(e) && *final(state)
                == *old(state) && *final(position) == *old(position)
            &&& early is None ==> {
                &&& final(position).lots_of(tranche).view() == unreleased_of(*old(position), tranche, lockup, now, amount_fp)
                &&& final(position).owner == old(position).owner
                &&& final(position).last_deposit_ts == old(position).last_deposit_ts
                &&& final(position).referrer == old(position).referrer
                &&& final(position).bump == old(position).bump
                &&& final(position).deposited_of(other_tranche(tranche)) == old(position).deposited_of(other_tranche(tranche))
                &&& final(position).withdrawable_of(other_tranche(tranche)) == old(position).withdrawable_of(other_tranche(tranche))
                &&& final(position).lots_of(other_tranche(tranche)) == old(position).lots_of(other_tranche(tranche))
            }
            &&& early is None && released < amount_fp ==> {
                &&& r == Err::<Withdrawn, ErrorCode>(ErrorCode::InsufficientMaturedFunds)
                &&& *final(state) == *old(state)
                &&& final(position).withdrawable_of(tranche) == released
                &&& final(position).deposited_of(tranche) == old(position).deposited_of(tranche)
            }
            &&& early is None && released >= amount_fp && old(state).total_deposited_fp < amount_fp ==> {
                &&& r == Err::<Withdrawn, ErrorCode>(ErrorCode::ArithmeticOverflow)
                &&& *final(state) == *old(state)
                &&& final(position).withdrawable_of(tranche) == released
                &&& final(position).deposited_of(tranche) == old(position).deposited_of(tranche)
            }
            &&& early is None && released >= amount_fp && old(state).total_deposited_fp >= amount_fp ==> {
                &&& r == Ok::<Withdrawn, ErrorCode>(Withdrawn { owner: old(position).owner, amount_fp: amount_fp as u128, tranche })
                &&& *final(state) == (State { total_deposited_fp: (old(state).total_deposited_fp - amount_fp) as u128, ..*old(state) })
                &&& final(position).withdrawable_of(tranche) == released - amount_fp
                &&& final(position).deposited_of(tranche) == old(position).deposited_of(tranche) - amount_fp
            }
        }),
        final(state).total_deposited_fp - old(state).total_deposited_fp == position_total(
            *final(position),
        ) - position_total(*old(position)),
{
    if !position.owner.same_as(user) {
        return Err(ErrorCode::Unauthorized);
    }
    if state.paused {
        return Err(ErrorCode::Paused);
    }
    if tranche > JUNIOR {
        return Err(ErrorCode::Unauthorized);
    }
    let amount_fp = match to_fp_u64(amount_usdc) {
        Ok(v) => v,
        Err(e) => return Err(e),
    };
    let lockup = state.lockup_secs;
    let res = if tranche == SENIOR {
        mature_and_consume(&mut position.senior_lots, lockup, now, &mut position.senior_withdrawable_fp, amount_fp)
    } else {
        mature_and_consume(&mut position.junior_lots, lockup, now, &mut position.junior_withdrawable_fp, amount_fp)
    };
    match res {
        Ok(()) => {},
        Err(e) => return Err(e),
    }
    proof {
        lemma_lots_sum_nonneg(position.lots_of(tranche).view());
    }
    if state.total_deposited_fp < amount_fp {
        if tranche == SENIOR {
            position.senior_withdrawable_fp = position.senior_withdrawable_fp + amount_fp;
        } else {
            position.junior_withdrawable_fp = position.junior_withdrawable_fp + amount_fp;
        }
        return Err(ErrorCode::ArithmeticOverflow);
    }
    if tranche == SENIOR {
        position.senior_deposited_fp = position.senior_deposited_fp - amount_fp;
    } else {
        position.junior_deposited_fp = position.junior_deposited_fp - amount_fp;
    }
    state.total_deposited_fp = state.total_deposited_fp - amount_fp;
    Ok(Withdrawn { owner: position.owner, amount_fp, tranche })
}

/// Deposits held over a sequence of positions.
pub open spec fn positions_total(ps: Seq<UserPosition>) -> int
    decreases ps.len(),
{
    if ps.len() == 0 {
        0
    } else {
        position_total(ps[0]) + positions_total(ps.subrange(1, ps.len() as int))
    }
}

proof fn lemma_positions_total_update(ps: Seq<UserPosition>, i: int, p: UserPosition)
    requires
        0 <= i < ps.len(),
    ensures
        positions_total(ps.update(i, p)) == positions_total(ps) - position_total(ps[i]) + position_total(p),
    decreases ps.len(),
{
    let qs = ps.update(i, p);
    if i > 0 {
        lemma_positions_total_update(ps.subrange(1, ps.len() as int), i - 1, p);
        assert(qs.subrange(1, qs.len() as int) =~= ps.subrange(1, ps.len() as int).update(i - 1, p));
    } else {
        assert(qs.subrange(1, qs.len() as int) =~= ps.subrange(1, ps.len() as int));
    }
}

proof fn lemma_positions_total_push(ps: Seq<UserPosition>, p: UserPosition)
    ensures
        positions_total(ps.push(p)) == positions_total(ps) + position_total(p),
    decreases ps.len(),
{
    let qs = ps.push(p);
    if ps.len() > 0 {
        lemma_positions_total_push(ps.subrange(1, ps.len() as int), p);
        assert(qs.subrange(1, qs.len() as int) =~= ps.subrange(1, ps.len() as int).push(p));
        assert(qs[0] == ps[0]);
    } else {
        assert(qs.subrange(1, qs.len() as int) =~= Seq::<UserPosition>::empty());
        assert(qs[0] == p);
        assert(positions_total(Seq::<UserPosition>::empty()) == 0);
    }
}

/// Conservation: when the pool's total equals the deposits over all
/// positions, an operation that moves the total by exactly what it moves one
/// position's deposits by (as `deposit_insurance` and `withdraw` do) keeps
/// them equal; so does opening a new, empty position.
pub proof fn lemma_conservation(
    positions: Seq<UserPosition>,
    i: int,
    updated: UserPosition,
    total_before: int,
    total_after: int,
)
    requires
        total_before == positions_total(positions),
        0 <= i < positions.len(),
        total_after - total_before == position_total(updated) - position_total(positions[i]),
    ensures
        total_after == positions_total(positions.update(i, updated)),
        position_total(updated) == 0 ==> total_before == positions_total(positions.push(updated)),
{
    lemma_positions_total_update(positions, i, updated);
    lemma_positions_total_push(positions, updated);
}

} // verus!
