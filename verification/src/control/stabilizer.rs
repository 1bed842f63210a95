//! # Flight Stabilization Decisions
//!
//! The lifecycle of the aircraft (arming and disarming) and the decision,
//! taken at every iteration of the control loop, of whether the axis
//! controllers run and with which command.
use vstd::prelude::*;

use crate::control::failsafe::{CommandOverride, FailsafeLevel};

verus! {

/// Defines the operational safety state of the vehicle.
#[derive(PartialEq, Eq, Structural, Debug)]
pub enum ArmingState {
    Disarmed,
    Armed,
}

/// What one iteration of the flight control loop does.
#[derive(Debug, PartialEq, Eq, Structural, Clone, Copy)]
pub enum TickPlan {
    /// Every motor is commanded to zero, and no estimator or controller is
    /// advanced.
    MotorsOff,
    /// The axis controllers run, on the pilot's command adjusted as given.
    Fly(CommandOverride),
}

impl ArmingState {
    /// Whether entering this state clears the memory of every axis
    /// controller (PID integrals, last errors and filter states).
    ///
    /// Disarming clears it, so that re-arming starts from a clean state and
    /// stale integral windup cannot make the motors jump.
    pub fn resets_controllers(&self) -> (r: bool)
        ensures
            r <==> (*self is Disarmed),
    {
        match self {
            ArmingState::Disarmed => true,
            ArmingState::Armed => false,
        }
    }
}

/// The plan of one control-loop iteration in the given arming state and
/// failsafe level: a disarmed vehicle keeps its motors off, an armed one flies
/// on the command that the failsafe level leaves.
pub open spec fn spec_plan_tick(arming_state: ArmingState, level: FailsafeLevel) -> TickPlan {
    match arming_state {
        ArmingState::Disarmed => TickPlan::MotorsOff,
        ArmingState::Armed => TickPlan::Fly(level.spec_command_override()),
    }
}

/// Decides what one iteration of the flight control loop does.
///
/// 1. **Arming Interlock**: a disarmed vehicle gets zero motor output,
///    whatever the sensors, the pilot or the failsafe monitor say.
/// 2. **Command Override**: an armed vehicle flies on the pilot's command as
///    adjusted by the failsafe level.
pub fn plan_tick(arming_state: &ArmingState, level: FailsafeLevel) -> (plan: TickPlan)
    ensures
        plan == spec_plan_tick(*arming_state, level),
{
    let command = level.command_override();
    match arming_state {
        ArmingState::Disarmed => TickPlan::MotorsOff,
        ArmingState::Armed => TickPlan::Fly(command),
    }
}

/// The controllers' memory is cleared exactly on entering the state in which
/// the controllers do not run: in the disarmed state every tick, at every
/// failsafe level, keeps the motors off, and in the armed state every tick
/// flies. So the controllers accumulate state only while armed, and re-arming
/// always starts them from a reset.
pub proof fn lemma_reset_exactly_when_grounded(arming_state: ArmingState, level: FailsafeLevel)
    ensures
        (arming_state is Disarmed) <==> (spec_plan_tick(arming_state, level) is MotorsOff),
        (arming_state is Armed) ==> spec_plan_tick(arming_state, level) == TickPlan::Fly(
            level.spec_command_override(),
        ),
{
}

} // verus!
