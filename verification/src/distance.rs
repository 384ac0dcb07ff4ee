//! Distances along a rail, in whole ticks.

use vstd::prelude::*;

verus! {

/// The largest magnitude of a finite distance.
pub const MAX_DISTANCE: i64 = 0x20_0000_0000_0000;

/// A distance is finite when its magnitude is at most `MAX_DISTANCE`.
pub open spec fn finite(value: int) -> bool {
    -MAX_DISTANCE <= value <= MAX_DISTANCE
}

/// `value` brought into `[0, length]`.
pub open spec fn clamped(value: int, length: int) -> int {
    if value < 0 {
        0
    } else if value > length {
        length
    } else {
        value
    }
}

/// Tells whether `value` is a finite distance.
pub fn is_finite(value: i64) -> (r: bool)
    ensures
        r == finite(value as int),
{
    -MAX_DISTANCE <= value && value <= MAX_DISTANCE
}

/// Brings `value` into `[0, length]`.
pub fn clamp(value: i64, length: i64) -> (r: i64)
    requires
        0 <= length,
    ensures
        r == clamped(value as int, length as int),
{
    if value < 0 {
        0
    } else if value > length {
        length
    } else {
        value
    }
}

} // verus!
