//! Saturating integer arithmetic with exact contracts.
//!
//! Angle and cursor bookkeeping accumulates signed offsets that arrive
//! from outside; these helpers pin the saturating behaviour down so the
//! callers' contracts can state the exact mathematical result.

use vstd::prelude::*;

verus! {

/// `x` held to the representable range of `i64`.
pub open spec fn sat_i64(x: int) -> int {
    if x > i64::MAX as int {
        i64::MAX as int
    } else if x < i64::MIN as int {
        i64::MIN as int
    } else {
        x
    }
}

/// `x` held to `[lo, hi]`.
pub open spec fn clamp_i64(x: int, lo: int, hi: int) -> int {
    if x < lo {
        lo
    } else if x > hi {
        hi
    } else {
        x
    }
}

/// Saturating addition with an exact contract.
pub fn sat_add_i64(a: i64, b: i64) -> (r: i64)
    ensures
        r == sat_i64(a + b),
{
    match a.checked_add(b) {
        Some(v) => v,
        None => if b > 0 {
            i64::MAX
        } else {
            i64::MIN
        },
    }
}

/// Saturating subtraction with an exact contract.
pub fn sat_sub_i64(a: i64, b: i64) -> (r: i64)
    ensures
        r == sat_i64(a - b),
{
    match a.checked_sub(b) {
        Some(v) => v,
        None => if b < 0 {
            i64::MAX
        } else {
            i64::MIN
        },
    }
}

/// Saturating multiplication with an exact contract.
pub fn sat_mul_i64(a: i64, b: i64) -> (r: i64)
    ensures
        r == sat_i64(a * b),
{
    match a.checked_mul(b) {
        Some(v) => v,
        None => {
            proof {
                lemma_mul_overflow_sign(a as int, b as int);
            }
            if (a > 0) == (b > 0) {
                i64::MAX
            } else {
                i64::MIN
            }
        },
    }
}

/// A product outside the `i64` range exceeds `i64::MAX` exactly when its
/// factors share a sign.
proof fn lemma_mul_overflow_sign(a: int, b: int)
    by (nonlinear_arith)
    requires
        !(i64::MIN <= a * b <= i64::MAX),
    ensures
        a * b > i64::MAX as int <==> ((a > 0 && b > 0) || (a < 0 && b < 0)),
{
}

} // verus!
