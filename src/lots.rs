//! Lot-size rules: snap to the lot step, then clamp to the allowed range.

use vstd::prelude::*;

verus! {

/// `n / d` rounded to the nearest integer, halves away from zero (`d > 0`).
pub open spec fn round_div(n: int, d: int) -> int {
    if n >= 0 {
        (2 * n + d) / (2 * d)
    } else {
        -((-2 * n + d) / (2 * d))
    }
}

/// `x` raised to at least `lo`, then lowered to at most `hi` (so `hi` wins
/// when the bounds cross).
pub open spec fn clamp_lot(x: int, lo: int, hi: int) -> int {
    let raised = if x < lo { lo } else { x };
    if raised > hi { hi } else { raised }
}

/// The lot size after adding `delta`: rounded to a whole number of steps,
/// then clamped to `[lo, hi]`.
pub open spec fn adjusted_lot(lot: int, delta: int, step: int, lo: int, hi: int) -> int {
    clamp_lot(round_div(lot + delta, step) * step, lo, hi)
}

/// Clamps `x` to `[lo, hi]`, `hi` winning when the bounds cross.
pub fn clamp_to(x: i64, lo: i64, hi: i64) -> (r: i64)
    ensures
        r == clamp_lot(x as int, lo as int, hi as int),
{
    let raised = if x < lo { lo } else { x };
    if raised > hi { hi } else { raised }
}

/// Adds `delta` to `lot`, snaps the sum to the nearest multiple of `step`
/// and clamps it to `[lo, hi]`.
pub fn adjust_lot(lot: i64, delta: i64, step: i64, lo: i64, hi: i64) -> (r: i64)
    requires
        step > 0,
    ensures
        r == adjusted_lot(lot as int, delta as int, step as int, lo as int, hi as int),
{
    let n: i128 = lot as i128 + delta as i128;
    let d: u128 = step as u128;
    let ghost ni = n as int;
    let ghost di = d as int;
    let snapped: i128;
    if n >= 0 {
        let q: u128 = (2 * (n as u128) + d) / (2 * d);
        assert(q * di <= ni + di) by (nonlinear_arith)
            requires
                q == (2 * ni + di) / (2 * di),
                ni >= 0,
                di > 0,
        ;
        assert(q * di >= 0) by (nonlinear_arith)
            requires
                q >= 0,
                di > 0,
        ;
        snapped = (q * d) as i128;
    } else {
        let m: u128 = (0 - n) as u128;
        let q: u128 = (2 * m + d) / (2 * d);
        assert(q * di <= (m as int) + di) by (nonlinear_arith)
            requires
                q == (2 * (m as int) + di) / (2 * di),
                m >= 0,
                di > 0,
        ;
        assert(q * di >= 0) by (nonlinear_arith)
            requires
                q >= 0,
                di > 0,
        ;
        snapped = 0 - (q * d) as i128;
    }
    assert(snapped == round_div(ni, di) * di) by (nonlinear_arith)
        requires
            ni >= 0 ==> snapped == ((2 * ni + di) / (2 * di)) * di,
            ni < 0 ==> snapped == -(((-2 * ni + di) / (2 * di)) * di),
    ;
    let raised: i128 = if snapped < lo as i128 { lo as i128 } else { snapped };
    if raised > hi as i128 {
        hi
    } else {
        raised as i64
    }
}

} // verus!
