use visual_servo::control::{
    choose_steering, orientation_commands, turning_commands, Command, Config, Drive, Hint,
    Observation, State, Steering, ORIENTATION_PROBE_MILLIS, TURNING_MOVE_MILLIS,
};
use visual_servo::geometry::Position;
use visual_servo::perception::MapState;

fn config() -> Config {
    Config { angle_threshold: 10 }
}

#[test]
fn turning_goes_to_approaching_below_the_threshold() {
    let step = State::Turning.transition(
        Observation::Turned { initial_offset: 15, corrected_offset: 8 },
        &config(),
    );
    assert_eq!(step.next, State::Approaching);
    assert!(!step.warn_regression);
}

#[test]
fn turning_stays_turning_at_or_above_the_threshold() {
    let step = State::Turning.transition(
        Observation::Turned { initial_offset: 8, corrected_offset: 15 },
        &config(),
    );
    assert_eq!(step.next, State::Turning);
    assert!(step.warn_regression);

    let boundary = State::Turning.transition(
        Observation::Turned { initial_offset: 12, corrected_offset: 10 },
        &config(),
    );
    assert_eq!(boundary.next, State::Turning);
    assert!(!boundary.warn_regression);
}

#[test]
fn negative_offsets_count_by_magnitude() {
    let step = State::Turning.transition(
        Observation::Turned { initial_offset: -15, corrected_offset: -8 },
        &config(),
    );
    assert_eq!(step.next, State::Approaching);
    assert!(!step.warn_regression);
}

#[test]
fn approaching_follows_the_hint() {
    let hit = State::Approaching.transition(
        Observation::Approached { hint: Hint::TargetWasHit },
        &config(),
    );
    assert_eq!(hit.next, State::Idle);
    assert!(!hit.warn_regression);

    let off = State::Approaching.transition(
        Observation::Approached { hint: Hint::OrientationIsOff },
        &config(),
    );
    assert_eq!(off.next, State::Turning);
    assert!(!off.warn_regression);
}

#[test]
fn idle_always_turns_again() {
    let step = State::Idle.transition(Observation::Idled, &config());
    assert_eq!(step.next, State::Turning);
    assert!(!step.warn_regression);
}

#[test]
fn steering_direction_law() {
    // threshold 10 gives a tolerance band of 5 degrees either side.
    assert_eq!(choose_steering(-20, 10), Steering::Left);
    assert_eq!(choose_steering(20, 10), Steering::Right);
    assert_eq!(choose_steering(2, 10), Steering::Straight);
}

#[test]
fn steering_band_boundaries() {
    assert_eq!(choose_steering(-5, 10), Steering::Straight);
    assert_eq!(choose_steering(5, 10), Steering::Straight);
    assert_eq!(choose_steering(-6, 10), Steering::Left);
    assert_eq!(choose_steering(6, 10), Steering::Right);
    assert_eq!(choose_steering(0, 0), Steering::Straight);
}

#[test]
fn turning_command_script_is_fixed_and_ordered() {
    let cmds = turning_commands(-20, &config());
    assert_eq!(
        cmds,
        vec![
            Command::Steer(Steering::Straight),
            Command::Move(Drive::Backward, TURNING_MOVE_MILLIS),
            Command::Steer(Steering::Left),
            Command::Move(Drive::Forward, TURNING_MOVE_MILLIS),
            Command::Steer(Steering::Straight),
        ]
    );

    let straight_cmds = turning_commands(3, &config());
    assert_eq!(straight_cmds[2], Command::Steer(Steering::Straight));
}

#[test]
fn fixed_durations() {
    assert_eq!(TURNING_MOVE_MILLIS, 2000);
    assert_eq!(ORIENTATION_PROBE_MILLIS, 100);
}

#[test]
fn orientation_probe_script() {
    assert_eq!(
        orientation_commands(),
        vec![
            Command::Steer(Steering::Straight),
            Command::Move(Drive::Forward, ORIENTATION_PROBE_MILLIS),
        ]
    );
}

#[test]
fn offset_angle_between_heading_and_target() {
    // The probe moved the vehicle east; the target sits due south of the
    // new vehicle position (image coordinates, y grows downward), a
    // quarter turn from the heading.
    let previous = Position { x: 0, y: 0 };
    let m = MapState {
        car: Position { x: 10, y: 0 },
        target: Position { x: 10, y: 10 },
    };
    assert_eq!(m.offset_angle(previous), 90);
}

#[test]
fn offset_angle_degenerate_probe_is_zero() {
    // No displacement was detected: the fallback angle applies.
    let previous = Position { x: 10, y: 10 };
    let m = MapState {
        car: Position { x: 10, y: 10 },
        target: Position { x: 50, y: 60 },
    };
    assert_eq!(m.offset_angle(previous), 0);
}
