//! # Failsafe System
//!
//! The emergency responses that the flight loop applies when the health
//! monitor reports a failure.
use vstd::prelude::*;

verus! {

/// The severity of a detected failure.
#[derive(Debug, PartialEq, Eq, Structural, Clone, Copy)]
pub enum FailsafeLevel {
    /// All systems nominal.
    Nominal,
    /// Critical failure: immediate controlled descent.
    Land,
    /// Total failure: stop the motors immediately.
    Kill,
}

/// How the pilot's throttle becomes the throttle handed to the mixer.
#[derive(Debug, PartialEq, Eq, Structural, Clone, Copy)]
pub enum ThrottleCommand {
    /// The pilot's throttle, unchanged.
    Pilot,
    /// Half of the pilot's throttle.
    Half,
    /// Zero throttle, whatever the pilot asks for.
    Cut,
}

/// Which attitude the axis controllers steer towards.
#[derive(Debug, PartialEq, Eq, Structural, Clone, Copy)]
pub enum TargetCommand {
    /// The attitude the pilot asked for.
    Pilot,
    /// A level attitude: zero roll, pitch and yaw.
    Level,
}

/// The adjustment of the pilot's command that a failsafe level imposes.
#[derive(Debug, PartialEq, Eq, Structural, Clone, Copy)]
pub struct CommandOverride {
    pub throttle: ThrottleCommand,
    pub target: TargetCommand,
}

impl FailsafeLevel {
    /// The command adjustment of each level: nominal flight passes the pilot's
    /// command through, `Land` halves the throttle and levels out, `Kill` cuts
    /// the throttle and levels out.
    pub open spec fn spec_command_override(self) -> CommandOverride {
        match self {
            FailsafeLevel::Nominal => CommandOverride {
                throttle: ThrottleCommand::Pilot,
                target: TargetCommand::Pilot,
            },
            FailsafeLevel::Land => CommandOverride {
                throttle: ThrottleCommand::Half,
                target: TargetCommand::Level,
            },
            FailsafeLevel::Kill => CommandOverride {
                throttle: ThrottleCommand::Cut,
                target: TargetCommand::Level,
            },
        }
    }

    /// The emergency override of the pilot's command at this level.
    pub fn command_override(&self) -> (r: CommandOverride)
        ensures
            r == self.spec_command_override(),
    {
        match self {
            FailsafeLevel::Nominal => CommandOverride {
                throttle: ThrottleCommand::Pilot,
                target: TargetCommand::Pilot,
            },
            FailsafeLevel::Land => CommandOverride {
                throttle: ThrottleCommand::Half,
                target: TargetCommand::Level,
            },
            FailsafeLevel::Kill => CommandOverride {
                throttle: ThrottleCommand::Cut,
                target: TargetCommand::Level,
            },
        }
    }
}

/// Any active failsafe takes authority away from the pilot: the vehicle is
/// levelled and the pilot's throttle is never passed through unchanged; only
/// the nominal level leaves the pilot's command untouched.
pub proof fn lemma_failsafe_overrides_pilot(level: FailsafeLevel)
    ensures
        level != FailsafeLevel::Nominal ==> {
            &&& level.spec_command_override().target == TargetCommand::Level
            &&& level.spec_command_override().throttle != ThrottleCommand::Pilot
        },
        level == FailsafeLevel::Nominal ==> level.spec_command_override() == (CommandOverride {
            throttle: ThrottleCommand::Pilot,
            target: TargetCommand::Pilot,
        }),
{
}

} // verus!
