//! Bounded FIFO queues of deposit lots, each with its own maturity clock.
use vstd::prelude::*;

use crate::error::ErrorCode;

verus! {

/// Capacity of one tranche's lot queue.
pub const MAX_LOTS: usize = 16;

/// One deposit: its net amount in scaled units and when it was made.
#[derive(Clone, Copy, Debug, PartialEq, Eq, Structural)]
pub struct Lot {
    pub amount_fp: u128,
    pub ts: i64,
}

/// A ring buffer of lots, oldest first: `len` lots starting at `head`.
#[derive(Clone, Copy, Debug)]
pub struct Lots {
    pub head: u8,
    pub len: u8,
    pub buf: [Lot; 16],
}

/// `a - b`, held within the range of `i64`.
pub open spec fn sat_diff(a: i64, b: i64) -> int {
    let d = a - b;
    if d > i64::MAX {
        i64::MAX as int
    } else if d < i64::MIN {
        i64::MIN as int
    } else {
        d
    }
}

/// `a - b`, saturating at the bounds of `i64`.
pub fn saturating_diff(a: i64, b: i64) -> (r: i64)
    ensures
        r == sat_diff(a, b),
{
    let d: i128 = a as i128 - b as i128;
    if d > i64::MAX as i128 {
        i64::MAX
    } else if d < i64::MIN as i128 {
        i64::MIN
    } else {
        d as i64
    }
}

/// A lot is mature once at least `lockup_secs` have passed since it was made.
pub open spec fn is_mature(lot: Lot, lockup_secs: i64, now: i64) -> bool {
    now - lot.ts >= lockup_secs
}

/// Total amount of a sequence of lots.
pub open spec fn lots_sum(s: Seq<Lot>) -> int
    decreases s.len(),
{
    if s.len() == 0 {
        0
    } else {
        s[0].amount_fp + lots_sum(s.subrange(1, s.len() as int))
    }
}

/// How many lots a withdrawal of `amount` releases from the front of the
/// queue, starting from withdrawable balance `w`: lots are released one by
/// one while the balance falls short of the amount and the front lot is
/// mature.
pub open spec fn release_count(s: Seq<Lot>, lockup_secs: i64, now: i64, w: int, amount: int) -> nat
    decreases s.len(),
{
    if w < amount && s.len() > 0 && is_mature(s[0], lockup_secs, now) {
        1 + release_count(s.subrange(1, s.len() as int), lockup_secs, now, w + s[0].amount_fp, amount)
    } else {
        0
    }
}

/// Lots in the order they were deposited, by time.
pub open spec fn deposited_in_order(s: Seq<Lot>) -> bool {
    forall|i: int, j: int| 0 <= i < j < s.len() ==> s[i].ts <= s[j].ts
}

pub proof fn lemma_lots_sum_push(s: Seq<Lot>, lot: Lot)
    ensures
        lots_sum(s.push(lot)) == lots_sum(s) + lot.amount_fp,
    decreases s.len(),
{
    if s.len() > 0 {
        lemma_lots_sum_push(s.subrange(1, s.len() as int), lot);
        assert(s.push(lot).subrange(1, s.len() + 1 as int) =~= s.subrange(1, s.len() as int).push(lot));
        assert(s.push(lot)[0] == s[0]);
    } else {
        assert(s.push(lot).subrange(1, 1) =~= Seq::<Lot>::empty());
        assert(s.push(lot)[0] == lot);
        assert(lots_sum(Seq::<Lot>::empty()) == 0);
    }
}

pub proof fn lemma_lots_sum_nonneg(s: Seq<Lot>)
    ensures
        lots_sum(s) >= 0,
    decreases s.len(),
{
    if s.len() > 0 {
        lemma_lots_sum_nonneg(s.subrange(1, s.len() as int));
    }
}

/// FIFO maturity: when lots were deposited in time order, a lot that is
/// mature has every earlier lot mature too. Since lots are only ever
/// released from the front of the queue (see `mature_and_consume`), no later
/// lot becomes withdrawable before an earlier one.
pub proof fn lemma_fifo_maturity(s: Seq<Lot>, lockup_secs: i64, now: i64, j: int)
    requires
        deposited_in_order(s),
        0 <= j < s.len(),
        is_mature(s[j], lockup_secs, now),
    ensures
        forall|i: int| 0 <= i <= j ==> is_mature(#[trigger] s[i], lockup_secs, now),
{
    assert forall|i: int| 0 <= i <= j implies is_mature(#[trigger] s[i], lockup_secs, now) by {
        assert(s[i].ts <= s[j].ts);
    }
}

impl Lots {
    /// The ring buffer's bounds hold.
    pub open spec fn wf(&self) -> bool {
        self.head < MAX_LOTS && self.len <= MAX_LOTS
    }

    /// The queued lots, oldest first.
    pub open spec fn view(&self) -> Seq<Lot> {
        Seq::new(self.len as nat, |i: int| self.buf@[(self.head + i) % (MAX_LOTS as int)])
    }

    /// An empty queue.
    pub fn new() -> (r: Lots)
        ensures
            r.wf(),
            r.view().len() == 0,
    {
        Lots { head: 0, len: 0, buf: [Lot { amount_fp: 0, ts: 0 }; 16] }
    }
}

/// Appends a lot at the tail. Fails with `CapacityExceeded`, changing
/// nothing, when the queue is full.
pub fn push_lot(lots: &mut Lots, lot: Lot) -> (r: Result<(), ErrorCode>)
    requires
        old(lots).wf(),
    ensures
        final(lots).wf(),
        old(lots).len < MAX_LOTS ==> r == Ok::<(), ErrorCode>(()) && final(lots).view() == old(
            lots,
        ).view().push(lot) && final(lots).head == old(lots).head,
        old(lots).len >= MAX_LOTS ==> r == Err::<(), ErrorCode>(ErrorCode::CapacityExceeded)
            && *final(lots) == *old(lots),
{
    if (lots.len as usize) < MAX_LOTS {
        let idx = ((lots.head as usize) + (lots.len as usize)) % MAX_LOTS;
        lots.buf[idx] = lot;
        lots.len = lots.len + 1;
        assert(lots.view() =~= old(lots).view().push(lot));
        Ok(())
    } else {
        Err(ErrorCode::CapacityExceeded)
    }
}

/// Removes and returns the oldest lot if it is mature; otherwise changes
/// nothing.
pub fn pop_matured(lots: &mut Lots, lockup_secs: i64, now: i64) -> (r: Option<Lot>)
    requires
        old(lots).wf(),
    ensures
        final(lots).wf(),
        old(lots).view().len() > 0 && is_mature(old(lots).view()[0], lockup_secs, now) ==> r
            == Some(old(lots).view()[0]) && final(lots).view() == old(lots).view().subrange(
            1,
            old(lots).view().len() as int,
        ),
        !(old(lots).view().len() > 0 && is_mature(old(lots).view()[0], lockup_secs, now)) ==> r
            == None::<Lot> && *final(lots) == *old(lots),
{
    if lots.len == 0 {
        return None;
    }
    let lot = lots.buf[lots.head as usize];
    assert(lot == lots.view()[0]);
    if (now as i128) - (lot.ts as i128) >= lockup_secs as i128 {
        lots.head = (((lots.head as usize) + 1) % MAX_LOTS) as u8;
        lots.len = lots.len - 1;
        assert(lots.view() =~= old(lots).view().subrange(1, old(lots).view().len() as int));
        Some(lot)
    } else {
        None
    }
}

/// Releases mature lots from the front of the queue into the withdrawable
/// balance, one by one, until the balance covers `amount_fp` or the front lot
/// is not mature; then takes `amount_fp` from the balance. Released lots stay
/// released even when the balance still falls short, in which case the call
/// fails with `InsufficientMaturedFunds` and takes nothing.
pub fn mature_and_consume(lots: &mut Lots, lockup_secs: i64, now: i64, withdrawable_fp: &mut u128, amount_fp: u128) -> (r:
    Result<(), ErrorCode>)
    requires
        old(lots).wf(),
        *old(withdrawable_fp) + lots_sum(old(lots).view()) <= u128::MAX,
    ensures
        final(lots).wf(),
        ({
            let s = old(lots).view();
            let k = release_count(s, lockup_secs, now, *old(withdrawable_fp) as int, amount_fp as int) as int;
            let released = *old(withdrawable_fp) + lots_sum(s.subrange(0, k));
            &&& k <= s.len()
            &&& forall|i: int| 0 <= i < k ==> is_mature(#[trigger] s[i], lockup_secs, now)
            &&& final(lots).view() == s.subrange(k, s.len() as int)
            &&& released >= amount_fp ==> r == Ok::<(), ErrorCode>(()) && *final(withdrawable_fp)
                == released - amount_fp
            &&& released < amount_fp ==> r == Err::<(), ErrorCode>(
                ErrorCode::InsufficientMaturedFunds,
            ) && *final(withdrawable_fp) == released
        }),
        *final(withdrawable_fp) + lots_sum(final(lots).view()) == *old(withdrawable_fp) + lots_sum(
            old(lots).view(),
        ) - (if r is Ok { amount_fp as int } else { 0 }),
{
    let ghost s0 = lots.view();
    let ghost w0 = *withdrawable_fp as int;
    let ghost mut k: int = 0;
    proof {
        assert(s0.subrange(0, 0) =~= Seq::<Lot>::empty());
        assert(s0.subrange(0, s0.len() as int) =~= s0);
        assert(lots_sum(Seq::<Lot>::empty()) == 0);
    }
    loop
        invariant
            lots.wf(),
            0 <= k <= s0.len(),
            lots.view() == s0.subrange(k, s0.len() as int),
            forall|i: int| 0 <= i < k ==> is_mature(#[trigger] s0[i], lockup_secs, now),
            *withdrawable_fp == w0 + lots_sum(s0.subrange(0, k)),
            w0 + lots_sum(s0) <= u128::MAX,
            lots_sum(s0) == lots_sum(s0.subrange(0, k)) + lots_sum(s0.subrange(k, s0.len() as int)),
            release_count(s0, lockup_secs, now, w0, amount_fp as int) == k + release_count(
                s0.subrange(k, s0.len() as int),
                lockup_secs,
                now,
                *withdrawable_fp as int,
                amount_fp as int,
            ),
        ensures
            lots.wf(),
            0 <= k <= s0.len(),
            lots.view() == s0.subrange(k, s0.len() as int),
            forall|i: int| 0 <= i < k ==> is_mature(#[trigger] s0[i], lockup_secs, now),
            *withdrawable_fp == w0 + lots_sum(s0.subrange(0, k)),
            lots_sum(s0) == lots_sum(s0.subrange(0, k)) + lots_sum(s0.subrange(k, s0.len() as int)),
            release_count(s0, lockup_secs, now, w0, amount_fp as int) == k,
        decreases s0.len() - k,
    {
        if *withdrawable_fp >= amount_fp {
            break;
        }
        match pop_matured(lots, lockup_secs, now) {
            Some(l) => {
                proof {
                    let rest = s0.subrange(k, s0.len() as int);
                    assert(rest[0] == s0[k]);
                    assert(rest.subrange(1, rest.len() as int) =~= s0.subrange(k + 1, s0.len() as int));
                    assert(s0.subrange(0, k + 1) =~= s0.subrange(0, k).push(s0[k]));
                    lemma_lots_sum_push(s0.subrange(0, k), s0[k]);
                    lemma_lots_sum_nonneg(s0.subrange(k + 1, s0.len() as int));
                    k = k + 1;
                }
                *withdrawable_fp = *withdrawable_fp + l.amount_fp;
            },
            None => {
                proof {
                    if k < s0.len() {
                        assert(lots.view()[0] == s0[k]);
                    }
                }
                break;
            },
        }
    }
    if *withdrawable_fp >= amount_fp {
        *withdrawable_fp = *withdrawable_fp - amount_fp;
        Ok(())
    } else {
        Err(ErrorCode::InsufficientMaturedFunds)
    }
}

} // verus!
