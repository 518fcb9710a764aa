//! Saturating `u64` arithmetic: the primitive operations of the cost
//! evaluator, together with the ordering facts the safety laws rest on.
//!
//! Saturation (clamping to `u64::MAX` on overflow) is a deliberate choice:
//! wrapping arithmetic would let an oversized input produce a deceptively
//! small estimate, defeating any downstream budget check.

use vstd::prelude::*;

verus! {

/// The exact sum of two `u64`-range values, clamped to `u64::MAX`.
pub open spec fn sat_add(a: int, b: int) -> int {
    if a + b > u64::MAX {
        u64::MAX as int
    } else {
        a + b
    }
}

/// The exact product of two `u64`-range values, clamped to `u64::MAX`.
pub open spec fn sat_mul(a: int, b: int) -> int {
    if a * b > u64::MAX {
        u64::MAX as int
    } else {
        a * b
    }
}

/// Saturating addition on `u64`.
pub fn sat_add_u64(a: u64, b: u64) -> (r: u64)
    ensures
        r == sat_add(a as int, b as int),
{
    a.saturating_add(b)
}

/// Saturating multiplication on `u64`.
pub fn sat_mul_u64(a: u64, b: u64) -> (r: u64)
    ensures
        r == sat_mul(a as int, b as int),
{
    match a.checked_mul(b) {
        Some(v) => v,
        None => u64::MAX,
    }
}

/// A saturating product of non-negative factors stays within the `u64` range.
pub proof fn lemma_sat_mul_bounds(a: int, b: int)
    requires
        0 <= a,
        0 <= b,
    ensures
        0 <= sat_mul(a, b) <= u64::MAX,
{
    assert(a * b >= 0) by (nonlinear_arith)
        requires
            0 <= a,
            0 <= b,
    ;
}

/// A saturating sum of `u64`-range operands stays within the `u64` range and
/// never lowers either operand.
pub proof fn lemma_sat_add_bounds(a: int, b: int)
    requires
        0 <= a <= u64::MAX,
        0 <= b <= u64::MAX,
    ensures
        0 <= sat_add(a, b) <= u64::MAX,
        a <= sat_add(a, b),
        b <= sat_add(a, b),
{
}

/// Saturating addition is monotonic in both operands.
pub proof fn lemma_sat_add_monotonic(a1: int, b1: int, a2: int, b2: int)
    requires
        a1 <= a2,
        b1 <= b2,
    ensures
        sat_add(a1, b1) <= sat_add(a2, b2),
{
}

/// Saturating multiplication is monotonic in both non-negative operands.
pub proof fn lemma_sat_mul_monotonic(a1: int, b1: int, a2: int, b2: int)
    requires
        0 <= a1 <= a2,
        0 <= b1 <= b2,
    ensures
        sat_mul(a1, b1) <= sat_mul(a2, b2),
{
    assert(a1 * b1 <= a2 * b2) by (nonlinear_arith)
        requires
            0 <= a1 <= a2,
            0 <= b1 <= b2,
    ;
}

/// Once a factor pair reaches the `u64` range's top, the saturating product
/// is exactly `u64::MAX`.
pub proof fn lemma_sat_mul_saturates(a: int, b: int)
    requires
        0 <= a,
        0 <= b,
        a * b >= u64::MAX,
    ensures
        sat_mul(a, b) == u64::MAX,
{
}

/// Adding anything non-negative to a saturated value keeps it saturated.
pub proof fn lemma_sat_add_saturates(a: int, b: int)
    requires
        0 <= a,
        0 <= b,
        a >= u64::MAX || b >= u64::MAX,
    ensures
        sat_add(a, b) == u64::MAX,
{
}

} // verus!
