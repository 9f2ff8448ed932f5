use vstd::prelude::*;

verus! {

/// The pitch, in millionths of a degree, beyond which a rotation never leaves the
/// camera: 89 degrees.
pub const PITCH_LIMIT: i64 = 89_000_000;

/// Half a turn, 180 degrees, in millionths of a degree.
pub const HALF_TURN: i32 = 180_000_000;

/// `value` brought into the range of `i64`: the nearest representable integer.
pub open spec fn saturate(value: int) -> int {
    if value > i64::MAX {
        i64::MAX as int
    } else if value < i64::MIN {
        i64::MIN as int
    } else {
        value
    }
}

/// `pitch` brought into the closed range from -89 to +89 degrees.
pub open spec fn clamp_pitch(pitch: int) -> int {
    if pitch > PITCH_LIMIT {
        PITCH_LIMIT as int
    } else if pitch < -PITCH_LIMIT {
        -PITCH_LIMIT
    } else {
        pitch
    }
}

/// Whether `pitch` lies in the closed range from -89 to +89 degrees.
pub open spec fn pitch_in_limits(pitch: int) -> bool {
    -PITCH_LIMIT <= pitch <= PITCH_LIMIT
}

/// The sum of two angles, held at the ends of the `i64` range where it would leave it.
pub fn saturating_sum(a: i64, b: i64) -> (r: i64)
    ensures
        r == saturate(a + b),
{
    if b > 0 && a > i64::MAX - b {
        i64::MAX
    } else if b < 0 && a < i64::MIN - b {
        i64::MIN
    } else {
        a + b
    }
}

/// The pitch that a rotation by `delta` leaves behind: the exact sum, clamped to the limits.
pub fn clamped_pitch_sum(pitch: i64, delta: i64) -> (r: i64)
    ensures
        r == clamp_pitch(pitch + delta),
        pitch_in_limits(r as int),
{
    let sum: i64 = saturating_sum(pitch, delta);
    if sum > PITCH_LIMIT {
        PITCH_LIMIT
    } else if sum < -PITCH_LIMIT {
        -PITCH_LIMIT
    } else {
        sum
    }
}

} // verus!
