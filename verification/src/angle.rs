//! Fixed-point angles and the clamp that keeps pitch in its legal range.
//!
//! An angle is a signed count of microradians, held in an `i64`. A quarter
//! turn (pi / 2 radians) is `HALF_PI_MICRORAD` units; pitch is confined to
//! the closed interval from `-HALF_PI_MICRORAD` to `HALF_PI_MICRORAD`.

use vstd::prelude::*;

verus! {

/// A quarter turn, pi / 2 radians, in microradians (rounded down).
pub const HALF_PI_MICRORAD: i64 = 1_570_796;

/// What clamping an angle to the legal pitch range means.
pub open spec fn clamp_angle(x: int) -> int {
    if x < -HALF_PI_MICRORAD {
        -HALF_PI_MICRORAD as int
    } else if x > HALF_PI_MICRORAD {
        HALF_PI_MICRORAD as int
    } else {
        x
    }
}

/// Clamping leaves an angle already in range unchanged.
pub proof fn lemma_clamp_of_in_range(x: int)
    requires
        -HALF_PI_MICRORAD <= x <= HALF_PI_MICRORAD,
    ensures
        clamp_angle(x) == x,
{
}

/// Clamping twice is the same as clamping once.
pub proof fn lemma_clamp_idempotent(x: int)
    ensures
        clamp_angle(clamp_angle(x)) == clamp_angle(x),
{
}

/// Clamps an angle to the legal pitch range.
pub fn clamp_to_pitch_range(x: i64) -> (r: i64)
    ensures
        r as int == clamp_angle(x as int),
{
    if x < -HALF_PI_MICRORAD {
        -HALF_PI_MICRORAD
    } else if x > HALF_PI_MICRORAD {
        HALF_PI_MICRORAD
    } else {
        x
    }
}

} // verus!
