//! # Control Systems
//!
//! The "Action" phase of the GNC loop: the decisions that turn the health of
//! the vehicle and the pilot's commands into what the axis controllers and
//! the motors are asked to do.

pub mod failsafe;
pub mod mixer;
pub mod stabilizer;

pub use failsafe::{CommandOverride, FailsafeLevel, TargetCommand, ThrottleCommand};
pub use mixer::{AxisSigns, Motor, MotorMixer};
pub use stabilizer::{ArmingState, TickPlan};
