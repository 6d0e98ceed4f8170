//! The animated shader uniform.
//!
//! Each frame the demo assigns `sin(t) * 0.5 + 0.5` to one named uniform.
//! The sine itself is sampled outside the library; the affine remap is done
//! here on a fixed-point sample, in millionths of a unit, and is proved to
//! land in the unit interval for every sample the sine can produce.

use vstd::prelude::*;

verus! {

/// One whole unit in the fixed-point scale: values in millionths.
pub const UNIT_SCALE: i32 = 1_000_000;

/// The uniform value derived from a sine sample `s`: `(s + 1) / 2`,
/// both in millionths of a unit.
pub open spec fn spec_animation_level(sin_micro: int) -> int {
    (sin_micro + UNIT_SCALE) / 2
}

/// Remap a sine sample from `[-1, 1]` to the unit interval.
///
/// The sample is in millionths of a unit, as is the result; the result is
/// within `[0, 1]` for every admissible sample, with `0` at `sin == -1`
/// and `1` at `sin == 1`.
pub fn animation_level(sin_micro: i32) -> (level: u32)
    requires
        -UNIT_SCALE <= sin_micro <= UNIT_SCALE,
    ensures
        level == spec_animation_level(sin_micro as int),
        0 <= level <= UNIT_SCALE,
{
    let shifted: u32 = (sin_micro + UNIT_SCALE) as u32;
    shifted / 2
}

} // verus!
