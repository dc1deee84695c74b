use voiturerc::actuator::{
    event_for_record, ActuatorData, Acurator, CommandAction, Event, LoopState, MotorData,
    SteeringData,
};
use voiturerc::config::Config;

fn command(steer: i64, speed: i64) -> Event {
    Event::FreshCommand(ActuatorData {
        motor: MotorData { speed },
        steering: SteeringData { steer },
    })
}

#[test]
fn fresh_command_enters_actuation() {
    let mut a = Acurator::new(&Config::new());
    assert!(matches!(a.mode, LoopState::WaitingForCommand));
    a.step(command(500_000, 800_000), 0);
    assert!(matches!(a.mode, LoopState::Actuating));
    // steer 0.5 maps to 76 000 - 6 000
    assert_eq!(a.steering.duty, 70_000);
}

#[test]
fn source_error_changes_nothing() {
    let mut a = Acurator::new(&Config::new());
    a.step(command(500_000, 800_000), 0);
    let motor_duty = a.motor.duty;
    let steer_duty = a.steering.duty;
    let integral = a.motor.error_integral;
    a.step(Event::SourceError, 0);
    assert!(matches!(a.mode, LoopState::Actuating));
    assert_eq!(a.motor.duty, motor_duty);
    assert_eq!(a.steering.duty, steer_duty);
    assert_eq!(a.motor.error_integral, integral);
}

#[test]
fn deadman_timeout_idles_the_motor_exactly_once() {
    let mut a = Acurator::new(&Config::new());
    a.step(command(500_000, 800_000), 0);
    let steer_duty = a.steering.duty;

    // the window expires: the motor is commanded to zero, steering untouched
    a.step(Event::WindowExpired, 4_000_000);
    assert!(matches!(a.mode, LoopState::DegradedIdle));
    assert_eq!(a.steering.duty, steer_duty);
    let duty_after_first = a.motor.duty;
    let error_after_first = a.motor.last_error;
    let integral_after_first = a.motor.error_integral;

    // further expiries touch nothing at all: edge-triggered, not repeated
    for _ in 0..5 {
        let r = a.step(Event::WindowExpired, 4_000_000);
        assert_eq!(r, 0);
        assert!(matches!(a.mode, LoopState::DegradedIdle));
        assert_eq!(a.motor.duty, duty_after_first);
        assert_eq!(a.motor.last_error, error_after_first);
        assert_eq!(a.motor.error_integral, integral_after_first);
        assert_eq!(a.steering.duty, steer_duty);
    }
}

#[test]
fn fresh_command_after_idle_reenters_actuation() {
    let mut a = Acurator::new(&Config::new());
    a.step(command(0, 0), 0);
    a.step(Event::WindowExpired, 0);
    assert!(matches!(a.mode, LoopState::DegradedIdle));
    a.step(command(-250_000, 0), 0);
    assert!(matches!(a.mode, LoopState::Actuating));
    // steer -0.25 maps to 76 000 + 3 000
    assert_eq!(a.steering.duty, 79_000);
}

#[test]
fn expiry_from_the_initial_state_also_idles() {
    let mut a = Acurator::new(&Config::new());
    a.step(Event::WindowExpired, 0);
    assert!(matches!(a.mode, LoopState::DegradedIdle));
}

#[test]
fn shutdown_stops_both_actuators() {
    let mut a = Acurator::new(&Config::new());
    a.step(command(500_000, 800_000), 0);
    a.safe_stop();
    assert_eq!(a.motor.duty, 0);
    assert_eq!(a.steering.duty, 0);
    // latched: later commands leave the outputs at the stopped value
    a.step(command(500_000, 800_000), 0);
    assert_eq!(a.motor.duty, 0);
    assert_eq!(a.steering.duty, 0);
}

#[test]
fn only_update_records_drive_actuation() {
    let data = ActuatorData {
        motor: MotorData { speed: 100_000 },
        steering: SteeringData { steer: -100_000 },
    };
    assert_eq!(
        event_for_record(CommandAction::Update, data),
        Some(Event::FreshCommand(data))
    );
    assert_eq!(event_for_record(CommandAction::Create, data), None);
    assert_eq!(event_for_record(CommandAction::Delete, data), None);
}

#[test]
fn empty_command_is_all_neutral() {
    let d = Acurator::empty();
    assert_eq!(d.motor.speed, 0);
    assert_eq!(d.steering.steer, 0);
}
