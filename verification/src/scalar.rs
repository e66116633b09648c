//! Saturating signed 64-bit arithmetic.
//!
//! Every quantity in the simulation (coordinates, velocities, forces,
//! elapsed time) is an `i64`, and every arithmetic step clamps its result
//! to the `i64` range instead of overflowing.  This keeps each operation a
//! total function, so the whole engine stays deterministic and free of
//! panics for every input.

use vstd::prelude::*;

verus! {

/// The mathematical value `v` clamped to the `i64` range.
pub open spec fn clamp64(v: int) -> i64 {
    if v > i64::MAX {
        i64::MAX
    } else if v < i64::MIN {
        i64::MIN
    } else {
        v as i64
    }
}

/// Saturating sum of two `i64` values.
pub open spec fn sat_add(a: i64, b: i64) -> i64 {
    clamp64(a + b)
}

/// Saturating difference of two `i64` values.
pub open spec fn sat_sub(a: i64, b: i64) -> i64 {
    clamp64(a - b)
}

/// Saturating product of two `i64` values.
pub open spec fn sat_mul(a: i64, b: i64) -> i64 {
    clamp64(a * b)
}

/// The sign of `v`: `-1`, `0` or `1`.
pub open spec fn sgn(v: i64) -> i64 {
    if v > 0 {
        1i64
    } else if v < 0 {
        -1i64
    } else {
        0i64
    }
}

/// Bounds on the product of two values that each fit in `i64`.
proof fn lemma_mul_i64_in_i128(a: i64, b: i64)
    ensures
        i128::MIN <= a * b <= i128::MAX,
{
    assert(i128::MIN <= a * b <= i128::MAX) by (nonlinear_arith)
        requires
            i64::MIN <= a <= i64::MAX,
            i64::MIN <= b <= i64::MAX,
    ;
}

/// Saturating addition, executable form.
pub fn sat_add_i64(a: i64, b: i64) -> (r: i64)
    ensures
        r == sat_add(a, b),
{
    let s: i128 = a as i128 + b as i128;
    if s > i64::MAX as i128 {
        i64::MAX
    } else if s < i64::MIN as i128 {
        i64::MIN
    } else {
        s as i64
    }
}

/// Saturating subtraction, executable form.
pub fn sat_sub_i64(a: i64, b: i64) -> (r: i64)
    ensures
        r == sat_sub(a, b),
{
    let s: i128 = a as i128 - b as i128;
    if s > i64::MAX as i128 {
        i64::MAX
    } else if s < i64::MIN as i128 {
        i64::MIN
    } else {
        s as i64
    }
}

/// Saturating multiplication, executable form.
pub fn sat_mul_i64(a: i64, b: i64) -> (r: i64)
    ensures
        r == sat_mul(a, b),
{
    proof {
        lemma_mul_i64_in_i128(a, b);
    }
    let p: i128 = a as i128 * b as i128;
    if p > i64::MAX as i128 {
        i64::MAX
    } else if p < i64::MIN as i128 {
        i64::MIN
    } else {
        p as i64
    }
}

/// The sign of `v`, executable form.
pub fn sgn_i64(v: i64) -> (r: i64)
    ensures
        r == sgn(v),
{
    if v > 0 {
        1
    } else if v < 0 {
        -1
    } else {
        0
    }
}

/// Quotient of a non-negative value by a positive value.
pub fn div_pos_i64(a: i64, b: i64) -> (r: i64)
    requires
        a >= 0,
        b >= 1,
    ensures
        r == a as int / b as int,
        0 <= r <= a,
{
    let q: u64 = a as u64 / b as u64;
    proof {
        vstd::arithmetic::div_mod::lemma_div_pos_is_pos(a as int, b as int);
        vstd::arithmetic::div_mod::lemma_div_nonincreasing(a as int, b as int);
    }
    q as i64
}

} // verus!
