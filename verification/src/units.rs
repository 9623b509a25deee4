//! Fixed-point quantities.
//!
//! Displacements and the acceleration factor are held in thousandths of a
//! unit; accumulated motion, a sum of products of the two, is held in
//! millionths.  All arithmetic on them is exact integer arithmetic.

use vstd::prelude::*;

verus! {

/// Thousandths in one unit.
pub const THOUSANDTHS_PER_UNIT: i32 = 1000;

/// Millionths in one unit.
pub const MILLIONTHS_PER_UNIT: i64 = 1_000_000;

/// The smallest whole number of units that is not below `millionths`.
pub open spec fn ceil_units(millionths: int) -> int {
    (millionths + (MILLIONTHS_PER_UNIT - 1)) / MILLIONTHS_PER_UNIT as int
}

/// `value` held to the range of an `i32`.
pub open spec fn clamp_i32(value: int) -> int {
    if value < i32::MIN as int {
        i32::MIN as int
    } else if value > i32::MAX as int {
        i32::MAX as int
    } else {
        value
    }
}

/// The absolute value of `value`.
pub open spec fn magnitude(value: int) -> int {
    if value < 0 {
        -value
    } else {
        value
    }
}

/// `ceil_units` is the ceiling: it is the one whole number of units that is
/// not below the amount while the next smaller one is.
pub proof fn lemma_ceil_units_is_ceiling(millionths: int)
    ensures
        ceil_units(millionths) * MILLIONTHS_PER_UNIT >= millionths,
        (ceil_units(millionths) - 1) * MILLIONTHS_PER_UNIT < millionths,
{
}

/// Any whole number of units that is not below the amount is at least the
/// ceiling.
pub proof fn lemma_ceil_units_is_least(millionths: int, units: int)
    requires
        units * MILLIONTHS_PER_UNIT >= millionths,
    ensures
        units >= ceil_units(millionths),
{
}

/// Rounds an amount in millionths up to whole units, held to the range of
/// an `i32`.
pub fn round_up_units(millionths: i64) -> (units: i32)
    ensures
        units as int == clamp_i32(ceil_units(millionths as int)),
{
    let whole: i64 = millionths / MILLIONTHS_PER_UNIT;
    let rest: i64 = millionths % MILLIONTHS_PER_UNIT;
    let up: i64 = if rest > 0 {
        whole + 1
    } else {
        whole
    };
    if up > 2_147_483_647 {
        2_147_483_647
    } else if up < -2_147_483_648 {
        -2_147_483_648
    } else {
        up as i32
    }
}

} // verus!
