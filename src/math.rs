//! Small integer helpers on magnitudes.
use vstd::prelude::*;

verus! {

/// The absolute value of `x`, as a mathematical integer.
pub open spec fn abs_spec(x: int) -> int {
    if x < 0 { -x } else { x }
}

/// The absolute value of a 32-bit integer, widened so that `i32::MIN` has one.
pub fn abs_wide(x: i32) -> (r: i64)
    ensures
        r == abs_spec(x as int),
{
    if x < 0 { -(x as i64) } else { x as i64 }
}

/// Of two values, the one with the larger magnitude; on equal magnitudes, `b`.
pub fn abs_max(a: i32, b: i32) -> (r: i32)
    ensures
        r == if abs_spec(a as int) > abs_spec(b as int) { a } else { b },
{
    if abs_wide(a) > abs_wide(b) { a } else { b }
}

/// Of two values, the one with the smaller magnitude; on equal magnitudes, `b`.
pub fn abs_min(a: i32, b: i32) -> (r: i32)
    ensures
        r == if abs_spec(a as int) < abs_spec(b as int) { a } else { b },
{
    if abs_wide(a) < abs_wide(b) { a } else { b }
}

} // verus!
