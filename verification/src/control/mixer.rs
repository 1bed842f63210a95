//! # Motor Mixing Geometry
//!
//! The "Mixer" maps normalized control signals from the PID controllers to
//! individual motor output levels. This module holds its airframe geometry:
//! the sign with which each axis demand enters each motor's output.
//!
//! ### Configuration
//! This mixer assumes a **Quad-X** configuration where:
//! - **Front-Left (FL)** and **Rear-Right (RR)** motors rotate clockwise (CW).
//! - **Front-Right (FR)** and **Rear-Left (RL)** motors rotate counter-clockwise (CCW).
//!
//! Each motor's output is `throttle + roll_sign * roll + pitch_sign * pitch
//! + yaw_sign * yaw`, clamped to `[0.0, 1.0]`.
use vstd::prelude::*;

verus! {

/// A stateless utility for calculating motor power distribution.
pub struct MotorMixer;

/// The four motors of a Quad-X airframe.
#[derive(Debug, PartialEq, Eq, Structural, Clone, Copy)]
pub enum Motor {
    FrontLeft,
    FrontRight,
    RearLeft,
    RearRight,
}

/// The signs (each `1` or `-1`) with which the roll, pitch and yaw demands
/// enter one motor's output.
#[derive(Debug, PartialEq, Eq, Structural, Clone, Copy)]
pub struct AxisSigns {
    pub roll: i8,
    pub pitch: i8,
    pub yaw: i8,
}

/// The Quad-X mixing matrix:
/// - FL = Throttle - Roll - Pitch - Yaw
/// - FR = Throttle + Roll - Pitch + Yaw
/// - RL = Throttle - Roll + Pitch + Yaw
/// - RR = Throttle + Roll + Pitch - Yaw
pub open spec fn spec_axis_signs(motor: Motor) -> AxisSigns {
    match motor {
        Motor::FrontLeft => AxisSigns { roll: -1i8, pitch: -1i8, yaw: -1i8 },
        Motor::FrontRight => AxisSigns { roll: 1i8, pitch: -1i8, yaw: 1i8 },
        Motor::RearLeft => AxisSigns { roll: -1i8, pitch: 1i8, yaw: 1i8 },
        Motor::RearRight => AxisSigns { roll: 1i8, pitch: 1i8, yaw: -1i8 },
    }
}

impl MotorMixer {
    /// The row of the mixing matrix for one motor.
    ///
    /// The signs are determined by the motor's position relative to the
    /// center of mass and its rotational direction.
    pub fn axis_signs(motor: Motor) -> (s: AxisSigns)
        ensures
            s == spec_axis_signs(motor),
    {
        match motor {
            Motor::FrontLeft => AxisSigns { roll: -1i8, pitch: -1i8, yaw: -1i8 },
            Motor::FrontRight => AxisSigns { roll: 1i8, pitch: -1i8, yaw: 1i8 },
            Motor::RearLeft => AxisSigns { roll: -1i8, pitch: 1i8, yaw: 1i8 },
            Motor::RearRight => AxisSigns { roll: 1i8, pitch: 1i8, yaw: -1i8 },
        }
    }
}

/// The sum of one axis's signs over the four motors.
pub open spec fn roll_sum() -> int {
    spec_axis_signs(Motor::FrontLeft).roll + spec_axis_signs(Motor::FrontRight).roll
        + spec_axis_signs(Motor::RearLeft).roll + spec_axis_signs(Motor::RearRight).roll
}

/// The sum of the pitch signs over the four motors.
pub open spec fn pitch_sum() -> int {
    spec_axis_signs(Motor::FrontLeft).pitch + spec_axis_signs(Motor::FrontRight).pitch
        + spec_axis_signs(Motor::RearLeft).pitch + spec_axis_signs(Motor::RearRight).pitch
}

/// The sum of the yaw signs over the four motors.
pub open spec fn yaw_sum() -> int {
    spec_axis_signs(Motor::FrontLeft).yaw + spec_axis_signs(Motor::FrontRight).yaw
        + spec_axis_signs(Motor::RearLeft).yaw + spec_axis_signs(Motor::RearRight).yaw
}

/// Every entry of the mixing matrix is `1` or `-1`, and a pure roll, pitch or
/// yaw demand redistributes thrust between the motors without changing the
/// total: each axis's signs sum to zero.
pub proof fn lemma_mixing_is_balanced(motor: Motor)
    ensures
        spec_axis_signs(motor).roll == 1 || spec_axis_signs(motor).roll == -1,
        spec_axis_signs(motor).pitch == 1 || spec_axis_signs(motor).pitch == -1,
        spec_axis_signs(motor).yaw == 1 || spec_axis_signs(motor).yaw == -1,
        roll_sum() == 0,
        pitch_sum() == 0,
        yaw_sum() == 0,
{
}

/// The Quad-X geometry: the motors on one side share their roll sign (the
/// left side rises on a negative roll demand, so a vehicle tilted right is
/// pushed back by its left motors), the front motors share their pitch sign,
/// and the motors that rotate the same way (FL with RR clockwise, FR with RL
/// counter-clockwise) share their yaw sign.
pub proof fn lemma_quad_x_geometry()
    ensures
        spec_axis_signs(Motor::FrontLeft).roll == spec_axis_signs(Motor::RearLeft).roll,
        spec_axis_signs(Motor::FrontRight).roll == spec_axis_signs(Motor::RearRight).roll,
        spec_axis_signs(Motor::FrontLeft).roll == -1,
        spec_axis_signs(Motor::FrontRight).roll == 1,
        spec_axis_signs(Motor::FrontLeft).pitch == spec_axis_signs(Motor::FrontRight).pitch,
        spec_axis_signs(Motor::RearLeft).pitch == spec_axis_signs(Motor::RearRight).pitch,
        spec_axis_signs(Motor::FrontLeft).pitch != spec_axis_signs(Motor::RearLeft).pitch,
        spec_axis_signs(Motor::FrontLeft).yaw == spec_axis_signs(Motor::RearRight).yaw,
        spec_axis_signs(Motor::FrontRight).yaw == spec_axis_signs(Motor::RearLeft).yaw,
        spec_axis_signs(Motor::FrontLeft).yaw != spec_axis_signs(Motor::FrontRight).yaw,
{
}

} // verus!
