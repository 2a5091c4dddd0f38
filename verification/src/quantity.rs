//! Fixed-point quantities and the arithmetic of bounded motion.
//!
//! A quantity is a signed count of micro-units. The spec functions work on
//! mathematical integers; the executable functions compute the same values
//! on machine integers without overflow.

use vstd::prelude::*;

verus! {

/// A requested value for one process variable.
#[derive(Clone, Copy, Debug, PartialEq, Eq, Structural)]
pub enum Target {
    /// A representable value, in micro-units.
    At(i64),
    /// A request that names no value: not a number, or beyond what a
    /// quantity can hold.
    Invalid,
}

/// `value` moved into the closed range from `min` to `max`.
pub open spec fn bounded(value: int, min: int, max: int) -> int {
    if value < min {
        min
    } else if value > max {
        max
    } else {
        value
    }
}

/// The distance between two quantities.
pub open spec fn distance(a: int, b: int) -> int {
    if a <= b {
        b - a
    } else {
        a - b
    }
}

/// One move from `from` towards `to` that covers at most `stride`: the goal
/// itself when it is close enough, else a full stride in its direction.
pub open spec fn approach(from: int, to: int, stride: int) -> int {
    if distance(from, to) <= stride {
        to
    } else if from < to {
        from + stride
    } else {
        from - stride
    }
}

/// The distance covered in one cycle of `cycle_ms` milliseconds at
/// `max_speed` micro-units per second, rounded down and capped at what a
/// `u64` holds.
pub open spec fn stride_of(max_speed: int, cycle_ms: int) -> int {
    let exact = max_speed * cycle_ms / 1000;
    if exact > u64::MAX {
        u64::MAX as int
    } else {
        exact
    }
}

/// Moves `value` into the closed range from `min` to `max`.
pub fn bound(value: i64, min: i64, max: i64) -> (r: i64)
    ensures
        r == bounded(value as int, min as int, max as int),
{
    if value < min {
        min
    } else if value > max {
        max
    } else {
        value
    }
}

/// Takes one move from `from` towards `to` of at most `stride`.
pub fn advance(from: i64, to: i64, stride: u64) -> (r: i64)
    ensures
        r == approach(from as int, to as int, stride as int),
{
    let gap: i128 = if from <= to {
        to as i128 - from as i128
    } else {
        from as i128 - to as i128
    };
    if gap <= stride as i128 {
        to
    } else if from < to {
        (from as i128 + stride as i128) as i64
    } else {
        (from as i128 - stride as i128) as i64
    }
}

/// The per-cycle stride for a speed limit and a cycle period.
pub fn stride(max_speed: u64, cycle_ms: u64) -> (r: u64)
    ensures
        r == stride_of(max_speed as int, cycle_ms as int),
{
    assert(max_speed as int * cycle_ms as int <= u64::MAX as int * u64::MAX as int)
        by (nonlinear_arith)
        requires
            0 <= max_speed as int <= u64::MAX as int,
            0 <= cycle_ms as int <= u64::MAX as int,
    ;
    assert(0 <= max_speed as int * cycle_ms as int) by (nonlinear_arith)
        requires
            0 <= max_speed as int,
            0 <= cycle_ms as int,
    ;
    let exact: u128 = (max_speed as u128 * cycle_ms as u128) / 1000u128;
    if exact > u64::MAX as u128 {
        u64::MAX
    } else {
        exact as u64
    }
}

} // verus!
