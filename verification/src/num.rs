//! Saturating arithmetic on signed 64-bit integers.
use vstd::prelude::*;

verus! {

/// `v` clamped to the range of `i64`.
pub open spec fn clamp_i64(v: int) -> i64 {
    if v > i64::MAX {
        i64::MAX
    } else if v < i64::MIN {
        i64::MIN
    } else {
        v as i64
    }
}

/// `a + b`, clamped to the range of `i64` (what `i64::saturating_add` returns).
pub fn saturating_add_i64(a: i64, b: i64) -> (res: i64)
    ensures
        res == clamp_i64(a + b),
{
    let s: i128 = (a as i128) + (b as i128);
    if s > 9223372036854775807i128 {
        9223372036854775807i64
    } else if s < -9223372036854775808i128 {
        -9223372036854775808i64
    } else {
        s as i64
    }
}

/// `a - b`, clamped to the range of `i64` (what `i64::saturating_sub` returns).
pub fn saturating_sub_i64(a: i64, b: i64) -> (res: i64)
    ensures
        res == clamp_i64(a - b),
{
    let s: i128 = (a as i128) - (b as i128);
    if s > 9223372036854775807i128 {
        9223372036854775807i64
    } else if s < -9223372036854775808i128 {
        -9223372036854775808i64
    } else {
        s as i64
    }
}

/// The larger of `a` and `b` (what `Ord::max` returns on integers).
pub open spec fn max_i64(a: i64, b: i64) -> i64 {
    if a >= b {
        a
    } else {
        b
    }
}

/// The larger of `a` and `b`.
pub fn max_of_i64(a: i64, b: i64) -> (res: i64)
    ensures
        res == max_i64(a, b),
{
    if a >= b {
        a
    } else {
        b
    }
}

} // verus!
