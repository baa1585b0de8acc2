//! Scaled-integer arithmetic behind every monetary quantity.
use vstd::prelude::*;

use crate::error::ErrorCode;

verus! {

/// Fixed-point scale: one token unit is `SCALE` scaled units.
pub const SCALE: u128 = 1_000_000;

/// Basis-point denominator: 10000 bps is 100%.
pub const BPS_DENOM: u128 = 10_000;

/// `a * b / d` rounded down, when the product fits in 128 bits and `d` is not zero.
pub open spec fn mul_div_fits(a: int, b: int, d: int) -> bool {
    a * b <= u128::MAX && d != 0
}

/// Converts whole token units to scaled units.
pub fn to_fp_u64(amount_u64: u64) -> (r: Result<u128, ErrorCode>)
    ensures
        r == Ok::<u128, ErrorCode>((amount_u64 * SCALE) as u128),
{
    let a = amount_u64 as u128;
    assert(a * SCALE <= u128::MAX) by (nonlinear_arith)
        requires a <= u64::MAX;
    Ok(a * SCALE)
}

/// Converts scaled units back to whole token units, rounding down.
pub fn from_fp_to_u64(amount_fp: u128) -> (r: Result<u64, ErrorCode>)
    ensures
        amount_fp / SCALE <= u64::MAX ==> r == Ok::<u64, ErrorCode>((amount_fp / SCALE) as u64),
        amount_fp / SCALE > u64::MAX ==> r == Err::<u64, ErrorCode>(ErrorCode::ArithmeticOverflow),
{
    let x = amount_fp / SCALE;
    if x <= u64::MAX as u128 {
        Ok(x as u64)
    } else {
        Err(ErrorCode::ArithmeticOverflow)
    }
}

/// `a * b / denom`, rounded down; overflow of the product and a zero
/// denominator are errors.
pub fn mul_div_floor_u128(a: u128, b: u128, denom: u128) -> (r: Result<u128, ErrorCode>)
    ensures
        mul_div_fits(a as int, b as int, denom as int) ==> r == Ok::<u128, ErrorCode>(
            ((a * b) / (denom as int)) as u128,
        ),
        !mul_div_fits(a as int, b as int, denom as int) ==> r == Err::<u128, ErrorCode>(
            ErrorCode::ArithmeticOverflow,
        ),
{
    match a.checked_mul(b) {
        None => Err(ErrorCode::ArithmeticOverflow),
        Some(num) => match num.checked_div(denom) {
            None => Err(ErrorCode::ArithmeticOverflow),
            Some(q) => Ok(q),
        },
    }
}

/// Vault balance in whole token units, as scaled units.
pub fn vault_balance_fp(balance_u64: u64) -> (r: Result<u128, ErrorCode>)
    ensures
        r == Ok::<u128, ErrorCode>((balance_u64 * SCALE) as u128),
{
    to_fp_u64(balance_u64)
}

} // verus!
