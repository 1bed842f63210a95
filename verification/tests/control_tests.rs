use rust_gnc::control::failsafe::{CommandOverride, FailsafeLevel, TargetCommand, ThrottleCommand};
use rust_gnc::control::mixer::{AxisSigns, Motor, MotorMixer};
use rust_gnc::control::stabilizer::{plan_tick, ArmingState, TickPlan};

const LEVELS: [FailsafeLevel; 3] = [FailsafeLevel::Nominal, FailsafeLevel::Land, FailsafeLevel::Kill];
const MOTORS: [Motor; 4] = [Motor::FrontLeft, Motor::FrontRight, Motor::RearLeft, Motor::RearRight];

#[test]
fn nominal_level_passes_pilot_command_through() {
    assert_eq!(
        FailsafeLevel::Nominal.command_override(),
        CommandOverride { throttle: ThrottleCommand::Pilot, target: TargetCommand::Pilot }
    );
}

#[test]
fn land_halves_throttle_and_levels() {
    assert_eq!(
        FailsafeLevel::Land.command_override(),
        CommandOverride { throttle: ThrottleCommand::Half, target: TargetCommand::Level }
    );
}

#[test]
fn kill_cuts_throttle_and_levels() {
    assert_eq!(
        FailsafeLevel::Kill.command_override(),
        CommandOverride { throttle: ThrottleCommand::Cut, target: TargetCommand::Level }
    );
}

#[test]
fn active_failsafe_never_passes_pilot_command() {
    for level in [FailsafeLevel::Land, FailsafeLevel::Kill] {
        let o = level.command_override();
        assert_eq!(o.target, TargetCommand::Level);
        assert_ne!(o.throttle, ThrottleCommand::Pilot);
    }
}

#[test]
fn disarmed_tick_keeps_motors_off_at_every_level() {
    for level in LEVELS {
        assert_eq!(plan_tick(&ArmingState::Disarmed, level), TickPlan::MotorsOff);
    }
}

#[test]
fn armed_tick_flies_on_the_failsafe_command() {
    for level in LEVELS {
        assert_eq!(plan_tick(&ArmingState::Armed, level), TickPlan::Fly(level.command_override()));
    }
    assert_eq!(
        plan_tick(&ArmingState::Armed, FailsafeLevel::Land),
        TickPlan::Fly(CommandOverride { throttle: ThrottleCommand::Half, target: TargetCommand::Level })
    );
}

#[test]
fn disarming_resets_controllers_and_arming_does_not() {
    assert!(ArmingState::Disarmed.resets_controllers());
    assert!(!ArmingState::Armed.resets_controllers());
}

#[test]
fn controllers_reset_exactly_when_grounded() {
    for state in [ArmingState::Disarmed, ArmingState::Armed] {
        for level in LEVELS {
            assert_eq!(state.resets_controllers(), plan_tick(&state, level) == TickPlan::MotorsOff);
        }
    }
}

#[test]
fn mixing_matrix_rows() {
    assert_eq!(MotorMixer::axis_signs(Motor::FrontLeft), AxisSigns { roll: -1, pitch: -1, yaw: -1 });
    assert_eq!(MotorMixer::axis_signs(Motor::FrontRight), AxisSigns { roll: 1, pitch: -1, yaw: 1 });
    assert_eq!(MotorMixer::axis_signs(Motor::RearLeft), AxisSigns { roll: -1, pitch: 1, yaw: 1 });
    assert_eq!(MotorMixer::axis_signs(Motor::RearRight), AxisSigns { roll: 1, pitch: 1, yaw: -1 });
}

#[test]
fn mixing_is_balanced_on_every_axis() {
    let (mut r, mut p, mut y) = (0i32, 0i32, 0i32);
    for m in MOTORS {
        let s = MotorMixer::axis_signs(m);
        for v in [s.roll, s.pitch, s.yaw] {
            assert!(v == 1 || v == -1);
        }
        r += s.roll as i32;
        p += s.pitch as i32;
        y += s.yaw as i32;
    }
    assert_eq!((r, p, y), (0, 0, 0));
}

#[test]
fn quad_x_geometry() {
    let fl = MotorMixer::axis_signs(Motor::FrontLeft);
    let fr = MotorMixer::axis_signs(Motor::FrontRight);
    let rl = MotorMixer::axis_signs(Motor::RearLeft);
    let rr = MotorMixer::axis_signs(Motor::RearRight);
    assert_eq!(fl.roll, rl.roll);
    assert_eq!(fr.roll, rr.roll);
    assert_eq!(fl.pitch, fr.pitch);
    assert_eq!(rl.pitch, rr.pitch);
    assert_eq!(fl.yaw, rr.yaw);
    assert_eq!(fr.yaw, rl.yaw);
    assert_ne!(fl.yaw, fr.yaw);
}

#[test]
fn negative_roll_demand_raises_left_motors() {
    // A vehicle tilted right gets a negative roll demand; applied with the
    // matrix at base throttle 0.5, the left motors rise and the right ones drop.
    let (throttle, roll) = (0.5f32, -0.5f32);
    let out = |m: Motor| throttle + f32::from(MotorMixer::axis_signs(m).roll) * roll;
    assert!(out(Motor::FrontLeft) > 0.5);
    assert!(out(Motor::RearLeft) > 0.5);
    assert!(out(Motor::FrontRight) < 0.5);
    assert!(out(Motor::RearRight) < 0.5);
}
