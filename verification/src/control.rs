//! The Turning / Approaching / Idle control cycle, as pure decision
//! logic.
//!
//! The driver that owns the devices measures, hands the measurement in
//! as an observation, and performs the commands and the state change
//! this module decides on. Keeping the decisions here, free of device
//! calls, is what makes the transition table checkable.

use vstd::prelude::*;

use crate::geometry::{vec_of, vector_angle, Position, Vector};
use crate::perception::MapState;

verus! {

/// How long one backward or forward correction move lasts, in
/// milliseconds.
pub const TURNING_MOVE_MILLIS: u64 = 2000;

/// How long the short forward probe of an orientation estimate lasts, in
/// milliseconds. One estimate always uses this single duration.
pub const ORIENTATION_PROBE_MILLIS: u64 = 100;

/// The control mode the driver is in.
#[derive(Clone, Copy, Debug, PartialEq, Eq, Structural)]
pub enum State {
    /// Correct the vehicle's heading with alternating backward and
    /// forward moves until the offset angle drops below the threshold.
    Turning,
    /// Close in on the target; an external maneuver reports whether the
    /// target was hit or the heading drifted off.
    Approaching,
    /// Rest on the target and watch for it moving away.
    Idle,
}

/// What the approaching maneuver reports back.
#[derive(Clone, Copy, Debug, PartialEq, Eq, Structural)]
pub enum Hint {
    /// The vehicle reached the target.
    TargetWasHit,
    /// The heading drifted; another turning phase is needed.
    OrientationIsOff,
}

/// The discrete wheel setting the actuator accepts.
#[derive(Clone, Copy, Debug, PartialEq, Eq, Structural)]
pub enum Steering {
    Left,
    Straight,
    Right,
}

/// The two motor directions used by the correction moves.
#[derive(Clone, Copy, Debug, PartialEq, Eq, Structural)]
pub enum Drive {
    Forward,
    Backward,
}

/// One device command of a correction cycle, in the order the driver
/// must issue them.
#[derive(Clone, Copy, Debug, PartialEq, Eq, Structural)]
pub enum Command {
    /// Set the wheels to the given orientation.
    Steer(Steering),
    /// Run the motor in the given direction for the given milliseconds.
    Move(Drive, u64),
}

/// The controller's immutable configuration: when the heading counts as
/// good enough, in whole degrees.
#[derive(Clone, Copy, Debug, PartialEq, Eq, Structural)]
pub struct Config {
    pub angle_threshold: u32,
}

/// What the driver observed since the last decision; each variant
/// belongs to the state of the same name.
#[derive(Clone, Copy, Debug, PartialEq, Eq, Structural)]
pub enum Observation {
    /// A turning cycle ran: the offset angle measured before the
    /// correction moves and the one measured after them.
    Turned { initial_offset: i64, corrected_offset: i64 },
    /// The approaching maneuver returned this hint.
    Approached { hint: Hint },
    /// The idling maneuver returned.
    Idled,
}

/// The outcome of one decision: the next state, and whether the driver
/// should warn that the offset magnitude grew during the correction —
/// a diagnostic only, never part of the transition itself.
#[derive(Clone, Copy, Debug, PartialEq, Eq, Structural)]
pub struct Step {
    pub next: State,
    pub warn_regression: bool,
}

/// An angle in whole degrees as the geometry produces it.
pub open spec fn angle_in_range(a: int) -> bool {
    -180 < a <= 180
}

pub open spec fn magnitude(a: int) -> int {
    if a < 0 {
        -a
    } else {
        a
    }
}

/// The observation a state can consume.
pub open spec fn observes(s: State, o: Observation) -> bool {
    match (s, o) {
        (State::Turning, Observation::Turned { .. }) => true,
        (State::Approaching, Observation::Approached { .. }) => true,
        (State::Idle, Observation::Idled) => true,
        _ => false,
    }
}

/// The transition table: where each state goes on its observation.
pub open spec fn next_state_spec(s: State, o: Observation, threshold: u32) -> State {
    match (s, o) {
        (State::Turning, Observation::Turned { corrected_offset, .. }) => {
            if magnitude(corrected_offset as int) < threshold {
                State::Approaching
            } else {
                State::Turning
            }
        },
        (State::Approaching, Observation::Approached { hint }) => match hint {
            Hint::TargetWasHit => State::Idle,
            Hint::OrientationIsOff => State::Turning,
        },
        _ => State::Turning,
    }
}

/// The regression diagnostic: after a turning cycle, did the offset
/// magnitude grow instead of shrink?
pub open spec fn regressed_spec(o: Observation) -> bool {
    match o {
        Observation::Turned { initial_offset, corrected_offset } => magnitude(
            corrected_offset as int,
        ) > magnitude(initial_offset as int),
        _ => false,
    }
}

impl State {
    /// One decision of the control cycle. Consumes the observation the
    /// current state called for and yields the next state of the
    /// transition table, plus the non-fatal regression diagnostic:
    /// Turning keeps turning until the corrected offset magnitude is
    /// below the threshold, then approaches; Approaching follows the
    /// maneuver's hint; Idle always turns again.
    pub fn transition(self, o: Observation, config: &Config) -> (r: Step)
        requires
            observes(self, o),
            match o {
                Observation::Turned { initial_offset, corrected_offset } => angle_in_range(
                    initial_offset as int,
                ) && angle_in_range(corrected_offset as int),
                _ => true,
            },
        ensures
            r.next == next_state_spec(self, o, config.angle_threshold),
            r.warn_regression == regressed_spec(o),
    {
        match (self, o) {
            (State::Turning, Observation::Turned { initial_offset, corrected_offset }) => {
                let corrected_mag = if corrected_offset < 0 {
                    -corrected_offset
                } else {
                    corrected_offset
                };
                let initial_mag = if initial_offset < 0 {
                    -initial_offset
                } else {
                    initial_offset
                };
                let next = if corrected_mag < config.angle_threshold as i64 {
                    State::Approaching
                } else {
                    State::Turning
                };
                Step { next, warn_regression: corrected_mag > initial_mag }
            },
            (State::Approaching, Observation::Approached { hint }) => match hint {
                Hint::TargetWasHit => Step { next: State::Idle, warn_regression: false },
                Hint::OrientationIsOff => Step { next: State::Turning, warn_regression: false },
            },
            _ => Step { next: State::Turning, warn_regression: false },
        }
    }
}

/// The steering a given offset angle calls for: left of the tolerance
/// band steer left, right of it steer right, inside it keep straight.
/// The tolerance is half the configured threshold.
pub open spec fn steering_spec(offset: int, threshold: u32) -> Steering {
    let tolerance = threshold as int / 2;
    if offset < -tolerance {
        Steering::Left
    } else if offset > tolerance {
        Steering::Right
    } else {
        Steering::Straight
    }
}

/// Choose the wheel setting that corrects the measured offset angle,
/// with a dead band of half the threshold on either side of zero.
pub fn choose_steering(offset: i64, threshold: u32) -> (s: Steering)
    requires
        angle_in_range(offset as int),
    ensures
        s == steering_spec(offset as int, threshold),
        (s == Steering::Left <==> offset < -((threshold / 2) as i64)),
        (s == Steering::Right <==> offset > (threshold / 2) as i64),
{
    let tolerance = (threshold / 2) as i64;
    if offset < -tolerance {
        Steering::Left
    } else if offset > tolerance {
        Steering::Right
    } else {
        Steering::Straight
    }
}

/// The command script of one turning correction: straighten, back off,
/// set the corrective steering for the measured offset, drive forward
/// the same fixed duration, straighten again — in exactly this order.
pub fn turning_commands(offset: i64, config: &Config) -> (r: Vec<Command>)
    requires
        angle_in_range(offset as int),
    ensures
        r@ == seq![
            Command::Steer(Steering::Straight),
            Command::Move(Drive::Backward, TURNING_MOVE_MILLIS),
            Command::Steer(steering_spec(offset as int, config.angle_threshold)),
            Command::Move(Drive::Forward, TURNING_MOVE_MILLIS),
            Command::Steer(Steering::Straight),
        ],
{
    let correction = choose_steering(offset, config.angle_threshold);
    let mut r: Vec<Command> = Vec::new();
    r.push(Command::Steer(Steering::Straight));
    r.push(Command::Move(Drive::Backward, TURNING_MOVE_MILLIS));
    r.push(Command::Steer(correction));
    r.push(Command::Move(Drive::Forward, TURNING_MOVE_MILLIS));
    r.push(Command::Steer(Steering::Straight));
    proof {
        assert(r@ =~= seq![
            Command::Steer(Steering::Straight),
            Command::Move(Drive::Backward, TURNING_MOVE_MILLIS),
            Command::Steer(steering_spec(offset as int, config.angle_threshold)),
            Command::Move(Drive::Forward, TURNING_MOVE_MILLIS),
            Command::Steer(Steering::Straight),
        ]);
    }
    r
}

/// The command script of one orientation probe: wheels straight, then a
/// short forward nudge of the fixed probe duration.
pub fn orientation_commands() -> (r: Vec<Command>)
    ensures
        r@ == seq![
            Command::Steer(Steering::Straight),
            Command::Move(Drive::Forward, ORIENTATION_PROBE_MILLIS),
        ],
{
    let mut r: Vec<Command> = Vec::new();
    r.push(Command::Steer(Steering::Straight));
    r.push(Command::Move(Drive::Forward, ORIENTATION_PROBE_MILLIS));
    proof {
        assert(r@ =~= seq![
            Command::Steer(Steering::Straight),
            Command::Move(Drive::Forward, ORIENTATION_PROBE_MILLIS),
        ]);
    }
    r
}

impl MapState {
    /// The heading the probe revealed: the displacement from where the
    /// vehicle was before the forward nudge to where it is now.
    pub fn car_orientation(previous: Position, now: Position) -> (v: Vector)
        ensures
            v == vec_of(previous, now),
    {
        Vector::from(previous, now)
    }

    /// The offset angle after a probe: the signed angle from the heading
    /// (previous vehicle position to the current one) to the current
    /// vehicle-to-target direction. Zero when either displacement is
    /// degenerate.
    pub fn offset_angle(&self, previous_car: Position) -> (r: i64)
        ensures
            r == vector_angle(vec_of(previous_car, self.car), vec_of(self.car, self.target)),
            angle_in_range(r as int),
    {
        let heading = MapState::car_orientation(previous_car, self.car);
        let to_target = Vector::from(self.car, self.target);
        heading.angle(to_target)
    }
}

} // verus!
