//! Steering-servo pulse-width computation: a steering angle is clamped to
//! the mechanical range and mapped linearly onto the SG90 servo's pulse
//! width. Only the integer arithmetic lives here; turning the result into a
//! platform duration is the caller's concern.

use vstd::prelude::*;

verus! {

/// Shortest accepted pulse, in nanoseconds (0 degrees).
pub const SERVO_PULSE_WIDTH_MIN_NS: u64 = 500_000;

/// Longest accepted pulse, in nanoseconds (180 degrees).
pub const SERVO_PULSE_WIDTH_MAX_NS: u64 = 2_500_000;

/// The servo's angular range, in degrees.
pub const SERVO_ANGLE_MIN: u64 = 0;

/// The servo's angular range, in degrees.
pub const SERVO_ANGLE_MAX: u64 = 180;

/// Offset applied when converting a steering angle to a servo angle, in
/// degrees: steering angle 0 sits at servo angle 90 minus this correction.
pub const SERVO_ANGLE_OFFSET: i32 = -10;

/// The steering linkage can only turn this far in either direction.
pub const STEERING_MIN_ANGLE: i32 = -30;

/// The steering linkage can only turn this far in either direction.
pub const STEERING_MAX_ANGLE: i32 = 30;

/// `angle` forced into the steering range.
pub open spec fn clamp_steering(angle: int) -> int {
    if angle > STEERING_MAX_ANGLE as int {
        STEERING_MAX_ANGLE as int
    } else if angle < STEERING_MIN_ANGLE as int {
        STEERING_MIN_ANGLE as int
    } else {
        angle
    }
}

/// The pulse width commanded for a steering angle, in nanoseconds: the
/// clamped angle is turned into a servo angle (90 degrees plus the offset,
/// minus the steering angle) and mapped linearly at the servo's
/// nanoseconds-per-degree rate above the shortest pulse. The rate is the
/// truncated quotient of the pulse range by the angular range.
pub open spec fn pulse_width_ns_spec(angle: int) -> int {
    SERVO_PULSE_WIDTH_MIN_NS as int + ((SERVO_PULSE_WIDTH_MAX_NS - SERVO_PULSE_WIDTH_MIN_NS) as int
        / (SERVO_ANGLE_MAX - SERVO_ANGLE_MIN) as int) * (90 + SERVO_ANGLE_OFFSET as int
        - clamp_steering(angle))
}

/// Compute the pulse width for a steering angle, in nanoseconds.
pub fn angle_to_pulse_width(angle: i32) -> (ns: u64)
    ensures
        ns == pulse_width_ns_spec(angle as int),
        SERVO_PULSE_WIDTH_MIN_NS <= ns <= SERVO_PULSE_WIDTH_MAX_NS,
{
    let angle: i32 = if angle > STEERING_MAX_ANGLE {
        STEERING_MAX_ANGLE
    } else if angle < STEERING_MIN_ANGLE {
        STEERING_MIN_ANGLE
    } else {
        angle
    };
    let servo_angle: u64 = (90 + SERVO_ANGLE_OFFSET - angle) as u64;
    let ratio: u64 = (SERVO_PULSE_WIDTH_MAX_NS - SERVO_PULSE_WIDTH_MIN_NS) / (SERVO_ANGLE_MAX
        - SERVO_ANGLE_MIN);
    SERVO_PULSE_WIDTH_MIN_NS + ratio * servo_angle
}

} // verus!
