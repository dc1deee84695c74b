//! The fail-safe control loop's decision core: one supervisor owning the
//! motor controller and the steering actuator, driven by the three events the
//! command channel can produce — a fresh command, a malformed record, or the
//! expiry of the dead-man window. The caller runs the channel and the 500 ms
//! timer; every decision about what the actuators do is made and proved here.

use vstd::prelude::*;
use crate::config::Config;
use crate::motor::{set_speed_rel, Motor, MOTOR_NEUTRAL};
use crate::steering::{steer_step, Steering, STEER_MID};

verus! {

/// The dead-man window: a command stream silent for longer than this forces
/// the motor to neutral, in milliseconds.
pub const DEAD_TIMEOUT: u64 = 500;

/// The motor half of a remote command: a normalized speed, micro-units.
#[derive(Clone, Copy, PartialEq, Eq, Structural, Debug)]
pub struct MotorData {
    pub speed: i64,
}

/// The steering half of a remote command: a normalized steer angle,
/// micro-units, negative to the left.
#[derive(Clone, Copy, PartialEq, Eq, Structural, Debug)]
pub struct SteeringData {
    pub steer: i64,
}

/// One remote command as the control loop consumes it.
#[derive(Clone, Copy, PartialEq, Eq, Structural, Debug)]
pub struct ActuatorData {
    pub motor: MotorData,
    pub steering: SteeringData,
}

/// The control loop's state: waiting for the first command, actuating on a
/// live stream, or idled by the dead-man timeout until the next fresh
/// command.
#[derive(Clone, Copy, PartialEq, Eq, Structural, Debug)]
pub enum LoopState {
    WaitingForCommand,
    Actuating,
    DegradedIdle,
}

/// How a record on the command channel is tagged by the store that
/// distributes it.
#[derive(Clone, Copy, PartialEq, Eq, Structural, Debug)]
pub enum CommandAction {
    Create,
    Update,
    Delete,
}

/// What one poll of the command channel produced.
#[derive(Clone, Copy, PartialEq, Eq, Structural, Debug)]
pub enum Event {
    FreshCommand(ActuatorData),
    SourceError,
    WindowExpired,
}

/// Only records tagged as updates drive actuation; every other record is
/// ignored by the control loop.
pub fn event_for_record(action: CommandAction, data: ActuatorData) -> (e: Option<Event>)
    ensures
        action is Update ==> e == Some(Event::FreshCommand(data)),
        !(action is Update) ==> e is None,
{
    match action {
        CommandAction::Update => Some(Event::FreshCommand(data)),
        CommandAction::Create => None,
        CommandAction::Delete => None,
    }
}

/// The state transition of the fail-safe machine: a fresh command always
/// (re-)enters actuation, a source error changes nothing, an expired window
/// degrades to idle.
pub open spec fn next_mode(mode: LoopState, event: Event) -> LoopState {
    match event {
        Event::FreshCommand(_) => LoopState::Actuating,
        Event::SourceError => mode,
        Event::WindowExpired => LoopState::DegradedIdle,
    }
}

/// Whether an expired window in this state touches the motor: only the first
/// expiry does — the transition to idle is edge-triggered, not repeated every
/// poll.
pub open spec fn expiry_forces_neutral(mode: LoopState) -> bool {
    !(mode is DegradedIdle)
}

/// The supervisor: both actuators and the dead-man state.
pub struct Acurator {
    pub motor: Motor,
    pub steering: Steering,
    pub mode: LoopState,
}

impl Acurator {
    /// A fresh supervisor, waiting for its first command, actuators unlatched
    /// and at rest.
    pub fn new(config: &Config) -> (a: Acurator)
        ensures
            a.mode is WaitingForCommand,
            a.motor.mode is Active,
            a.motor.kp == config.kp && a.motor.ki == config.ki && a.motor.kd == config.kd,
            a.motor.last_error == 0 && a.motor.error_integral == 0,
            a.motor.duty == MOTOR_NEUTRAL,
            a.steering.mode is Active,
            a.steering.duty == STEER_MID,
    {
        Acurator {
            motor: Motor::new(config),
            steering: Steering::new(),
            mode: LoopState::WaitingForCommand,
        }
    }

    /// The all-neutral command.
    pub fn empty() -> (d: ActuatorData)
        ensures
            d.motor.speed == 0,
            d.steering.steer == 0,
    {
        ActuatorData { motor: MotorData { speed: 0 }, steering: SteeringData { steer: 0 } }
    }

    /// One step of the fail-safe machine. A fresh command drives both
    /// actuators and (re-)enters actuation; a source error changes nothing; an
    /// expired window forces the motor's commanded speed to zero exactly once
    /// — the measured-speed feedback still reaches the PID, and the steering
    /// keeps its last value. Returns the motor's effective command where the
    /// motor was driven.
    pub fn step(&mut self, event: Event, sensor_speed: i64) -> (r: i64)
        ensures
            final(self).mode == next_mode(old(self).mode, event),
            event matches Event::FreshCommand(data) ==> exists|dt_us: int|
                1 <= dt_us && set_speed_rel(
                    old(self).motor,
                    final(self).motor,
                    data.motor.speed as int,
                    sensor_speed as int,
                    dt_us,
                    r as int,
                ),
            event matches Event::FreshCommand(data) ==> crate::steering::steer_applied(
                old(self).steering,
                final(self).steering,
                data.steering.steer as int,
            ),
            event is SourceError ==> final(self).motor == old(self).motor && final(self).steering
                == old(self).steering && r == 0,
            event is WindowExpired && !expiry_forces_neutral(old(self).mode) ==> final(self).motor
                == old(self).motor && final(self).steering == old(self).steering && r == 0,
            event is WindowExpired && expiry_forces_neutral(old(self).mode) ==> exists|dt_us: int|
                1 <= dt_us && set_speed_rel(
                    old(self).motor,
                    final(self).motor,
                    0,
                    sensor_speed as int,
                    dt_us,
                    r as int,
                ) && final(self).steering == old(self).steering,
    {
        match event {
            Event::FreshCommand(data) => {
                self.steering.set_steer(data.steering.steer);
                let r = self.motor.set_speed(data.motor.speed, sensor_speed);
                self.mode = LoopState::Actuating;
                r
            },
            Event::SourceError => 0,
            Event::WindowExpired => {
                let r = if matches!(self.mode, LoopState::DegradedIdle) {
                    0
                } else {
                    self.motor.set_speed(0, sensor_speed)
                };
                self.mode = LoopState::DegradedIdle;
                r
            },
        }
    }

    /// The irreversible safety stop of the whole actuator path, invoked on
    /// shutdown whatever the current state.
    pub fn safe_stop(&mut self)
        ensures
            final(self).motor.mode is Stopped,
            final(self).motor.duty == 0,
            final(self).steering.mode is Stopped,
            final(self).steering.duty == 0,
            final(self).mode == old(self).mode,
    {
        self.steering.safe_stop();
        self.motor.safe_stop();
    }
}

/// The dead-man timeout idles the motor exactly once. The first expiry of the
/// window leaves the machine in the degraded-idle state, from which a further
/// expiry touches nothing; only a fresh command re-enters actuation, and a
/// source error cannot.
pub proof fn lemma_deadman_idles_exactly_once(mode: LoopState, data: ActuatorData)
    ensures
        next_mode(mode, Event::WindowExpired) is DegradedIdle,
        !expiry_forces_neutral(next_mode(mode, Event::WindowExpired)),
        next_mode(next_mode(mode, Event::WindowExpired), Event::SourceError) is DegradedIdle,
        next_mode(next_mode(mode, Event::WindowExpired), Event::FreshCommand(data)) is Actuating,
        expiry_forces_neutral(LoopState::Actuating),
        expiry_forces_neutral(LoopState::WaitingForCommand),
{
}

} // verus!
