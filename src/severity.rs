//! Quadratic severity curve with a floor and a 100% ceiling.
use vstd::prelude::*;
use vstd::arithmetic::div_mod::{lemma_div_by_multiple, lemma_div_is_ordered};

use crate::error::ErrorCode;
use crate::fixed::{mul_div_floor_u128, BPS_DENOM, SCALE};

verus! {

/// `a·x² + b·x + c` in scaled units, for an input `x` in basis points and
/// coefficients in scaled units.
pub open spec fn curve_value(x: int, a: int, b: int, c: int) -> int {
    a * (x * x) + b * x + c
}

/// The curve can be evaluated within 128 bits: the scaled input, its scaled
/// square, both scaled products and the sum all fit.
pub open spec fn severity_fits(x: int, a: int, b: int, c: int) -> bool {
    &&& x * SCALE <= u128::MAX
    &&& (x * SCALE) * (x * SCALE) <= u128::MAX
    &&& a * ((x * x) * SCALE) <= u128::MAX
    &&& b * (x * SCALE) <= u128::MAX
    &&& curve_value(x, a, b, c) <= u128::MAX
}

/// The effective severity in basis points: the curve's value brought back to
/// basis points, raised to the floor, then held at or below 10000.
pub open spec fn severity_of(x: int, a: int, b: int, c: int, floor_bps: int) -> int {
    let raw = curve_value(x, a, b, c) / (SCALE as int);
    let floored = if raw >= floor_bps { raw } else { floor_bps };
    if floored <= BPS_DENOM { floored } else { BPS_DENOM as int }
}

proof fn lemma_scaled_div(k: int)
    requires
        0 <= k,
    ensures
        (k * SCALE) / (SCALE as int) == k,
{
    lemma_div_by_multiple(k, SCALE as int);
}

/// Evaluates the severity curve for an input signal in basis points.
/// Fails with `ArithmeticOverflow` exactly when an intermediate value does not
/// fit in 128 bits.
pub fn effective_severity_bps(x_bps: u128, a_fp: u128, b_fp: u128, c_fp: u128, floor_bps: u16) -> (r:
    Result<u128, ErrorCode>)
    ensures
        severity_fits(x_bps as int, a_fp as int, b_fp as int, c_fp as int) ==> r == Ok::<
            u128,
            ErrorCode,
        >(severity_of(x_bps as int, a_fp as int, b_fp as int, c_fp as int, floor_bps as int) as u128),
        !severity_fits(x_bps as int, a_fp as int, b_fp as int, c_fp as int) ==> r == Err::<
            u128,
            ErrorCode,
        >(ErrorCode::ArithmeticOverflow),
{
    let ghost x = x_bps as int;
    let x_fp = match x_bps.checked_mul(SCALE) {
        Some(v) => v,
        None => return Err(ErrorCode::ArithmeticOverflow),
    };
    let x2 = match mul_div_floor_u128(x_fp, x_fp, SCALE) {
        Ok(v) => v,
        Err(e) => return Err(e),
    };
    proof {
        assert((x * SCALE) * (x * SCALE) == (x * x * SCALE) * SCALE) by (nonlinear_arith);
        assert(x * x >= 0) by (nonlinear_arith);
        lemma_scaled_div(x * x * SCALE);
        assert(x2 == x * x * SCALE);
    }
    let ax2 = match mul_div_floor_u128(a_fp, x2, SCALE) {
        Ok(v) => v,
        Err(e) => return Err(e),
    };
    proof {
        assert(a_fp * (x * x * SCALE) == (a_fp * (x * x)) * SCALE) by (nonlinear_arith);
        assert(a_fp * (x * x) >= 0) by (nonlinear_arith)
            requires x * x >= 0, a_fp >= 0;
        lemma_scaled_div(a_fp * (x * x));
        assert(ax2 == a_fp * (x * x));
    }
    let bx = match mul_div_floor_u128(b_fp, x_fp, SCALE) {
        Ok(v) => v,
        Err(e) => return Err(e),
    };
    proof {
        assert(b_fp * (x * SCALE) == (b_fp * x) * SCALE) by (nonlinear_arith);
        assert(b_fp * x >= 0) by (nonlinear_arith)
            requires x >= 0, b_fp >= 0;
        lemma_scaled_div(b_fp * x);
        assert(bx == b_fp * x);
    }
    let s1 = match ax2.checked_add(bx) {
        Some(v) => v,
        None => {
            assert(!severity_fits(x, a_fp as int, b_fp as int, c_fp as int));
            return Err(ErrorCode::ArithmeticOverflow);
        },
    };
    let sum = match s1.checked_add(c_fp) {
        Some(v) => v,
        None => return Err(ErrorCode::ArithmeticOverflow),
    };
    let bps = sum / SCALE;
    let floored = if bps >= floor_bps as u128 { bps } else { floor_bps as u128 };
    if floored <= BPS_DENOM {
        Ok(floored)
    } else {
        Ok(BPS_DENOM)
    }
}

/// For non-negative coefficients the effective severity never decreases as
/// the input grows, an input that can be evaluated stays evaluable when it
/// shrinks, and with a floor of at most 10000 bps the result always lies
/// between the floor and 10000 bps.
pub proof fn lemma_severity_monotone(x1: u128, x2: u128, a: u128, b: u128, c: u128, floor_bps: u16)
    requires
        x1 <= x2,
    ensures
        severity_of(x1 as int, a as int, b as int, c as int, floor_bps as int) <= severity_of(
            x2 as int,
            a as int,
            b as int,
            c as int,
            floor_bps as int,
        ),
        severity_fits(x2 as int, a as int, b as int, c as int) ==> severity_fits(
            x1 as int,
            a as int,
            b as int,
            c as int,
        ),
        floor_bps <= BPS_DENOM ==> floor_bps <= severity_of(
            x1 as int,
            a as int,
            b as int,
            c as int,
            floor_bps as int,
        ) <= BPS_DENOM,
{
    let (p, q) = (x1 as int, x2 as int);
    assert(p * p <= q * q) by (nonlinear_arith)
        requires 0 <= p <= q;
    assert(a * (p * p) <= a * (q * q)) by (nonlinear_arith)
        requires p * p <= q * q, a >= 0;
    assert(b * p <= b * q) by (nonlinear_arith)
        requires p <= q, b >= 0;
    assert(p * SCALE <= q * SCALE) by (nonlinear_arith)
        requires p <= q;
    assert((p * SCALE) * (p * SCALE) <= (q * SCALE) * (q * SCALE)) by (nonlinear_arith)
        requires 0 <= p <= q;
    assert(a * ((p * p) * SCALE) <= a * ((q * q) * SCALE)) by (nonlinear_arith)
        requires p * p <= q * q, a >= 0;
    assert(b * (p * SCALE) <= b * (q * SCALE)) by (nonlinear_arith)
        requires p <= q, b >= 0;
    lemma_div_is_ordered(curve_value(p, a as int, b as int, c as int), curve_value(q, a as int, b as int, c as int), SCALE as int);
}

} // verus!
