//! Saturating addition and subtraction on `i32`, with the clamp that defines them.

use vstd::prelude::*;

verus! {

/// The value in `[lo, hi]` that is nearest to `x`.
pub open spec fn clamp(x: int, lo: int, hi: int) -> int {
    if x < lo {
        lo
    } else if x > hi {
        hi
    } else {
        x
    }
}

/// The `i32` value that is nearest to `x`.
pub open spec fn saturate(x: int) -> int {
    clamp(x, i32::MIN as int, i32::MAX as int)
}

/// The sum of `a` and `b` where an `i32` can hold it, else the bound that the
/// sum has passed.
pub fn saturating_add(a: i32, b: i32) -> (r: i32)
    ensures
        r == saturate(a + b),
{
    match a.checked_add(b) {
        Some(sum) => sum,
        None => if b > 0 {
            i32::MAX
        } else {
            i32::MIN
        },
    }
}

/// The difference of `a` and `b` where an `i32` can hold it, else the bound
/// that the difference has passed. The subtrahend is never negated, so
/// `b == i32::MIN` needs no case of its own.
pub fn saturating_sub(a: i32, b: i32) -> (r: i32)
    ensures
        r == saturate(a - b),
{
    match a.checked_sub(b) {
        Some(difference) => difference,
        None => if b > 0 {
            i32::MIN
        } else {
            i32::MAX
        },
    }
}

} // verus!
