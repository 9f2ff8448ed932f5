use vstd::prelude::*;

verus! {

/// Angles are counted in millionths of a degree.
pub const ANGLE_UNITS_PER_DEGREE: i64 = 1_000_000;

/// Lengths, such as the distances of the clipping planes, and speeds per second are
/// counted in thousandths of a world unit.
pub const LENGTH_UNITS_PER_WORLD_UNIT: i32 = 1_000;

/// Time is counted in microseconds.
pub const TIME_UNITS_PER_SECOND: u32 = 1_000_000;

/// Pointer coordinates are counted in thousandths of a pixel.
pub const POINTER_UNITS_PER_PIXEL: i32 = 1_000;

/// The aspect ratio is counted in thousandths.
pub const ASPECT_UNITS_PER_ONE: i32 = 1_000;

/// The distance of a step is a speed times a time, and so counted in billionths of a
/// world unit.
pub const DISTANCE_UNITS_PER_WORLD_UNIT: i64 = 1_000_000_000;

/// A speed of one world unit per second covers one world unit in one second.
pub proof fn lemma_distance_units()
    ensures
        DISTANCE_UNITS_PER_WORLD_UNIT == LENGTH_UNITS_PER_WORLD_UNIT * TIME_UNITS_PER_SECOND,
{
}

} // verus!
