//! The world-curve height function and the ordering helper it is built on.

use vstd::prelude::*;

verus! {

use core::cmp::Ordering;
use vstd::std_specs::cmp::PartialOrdSpec;

/// Lateral positions count tenths of a world unit.
pub const POS_PER_UNIT: i64 = 10;

/// Heights count thirty-thousandths of a world unit: the least scale at which
/// the parabola coefficients -1/300, 1/8 and 12 stay exact on tenth-unit
/// inputs.
pub const HEIGHT_PER_UNIT: i64 = 30000;

/// The flat ground level of -1.3 world units, in height units.
pub const GROUND_HEIGHT: i64 = -39000;

/// Widest lateral input the executable curve accepts; keeps the square within
/// `i64` range.
pub const CURVE_INPUT_BOUND: i64 = 1000000000;

/// The parabola `-y_u^2/300 + y_u/8 + 12` over world units `y_u = y/10`,
/// written in height units over a lateral position `y` in tenths:
/// multiplying through by 30000 leaves integer coefficients.
pub open spec fn parab_path(y: int) -> int {
    -(y * y) + 375 * y + 360000
}

/// The ground curve: the parabola clamped from above to the flat ground
/// level, exactly as the scene computes it.
pub open spec fn world_curve(y: int) -> int {
    if parab_path(y) < GROUND_HEIGHT {
        parab_path(y)
    } else {
        GROUND_HEIGHT as int
    }
}

/// The curve never rises above the flat ground level, at any lateral
/// position: the clamp is an upper bound everywhere.
pub proof fn lemma_world_curve_clamped(y: int)
    ensures
        world_curve(y) <= GROUND_HEIGHT,
{
}

/// The smaller of two values under `<`, with the second returned whenever the
/// first is not strictly smaller (also when the two are unordered).
pub fn min<T: PartialOrd>(a: T, b: T) -> (r: T)
    ensures
        r == a || r == b,
        T::obeys_partial_cmp_spec() ==> r == (if a.partial_cmp_spec(&b) == Some(Ordering::Less) {
            a
        } else {
            b
        }),
{
    if a < b {
        a
    } else {
        b
    }
}

/// Height of the ground curve at lateral position `hor_position` (in tenths
/// of a unit), in height units: the clamped parabola, computed exactly.
pub fn calc_world_curve_path(hor_position: i64) -> (height: i64)
    requires
        -CURVE_INPUT_BOUND <= hor_position <= CURVE_INPUT_BOUND,
    ensures
        height == world_curve(hor_position as int),
        height <= GROUND_HEIGHT,
{
    let y: i64 = hor_position;
    proof {
        assert(y * y <= CURVE_INPUT_BOUND * CURVE_INPUT_BOUND) by (nonlinear_arith)
            requires
                -CURVE_INPUT_BOUND <= y <= CURVE_INPUT_BOUND,
        ;
        assert(y * y >= 0) by (nonlinear_arith);
    }
    let square: i64 = y * y;
    let parab: i64 = -square + 375 * y + 360000;
    min(parab, GROUND_HEIGHT)
}

} // verus!
