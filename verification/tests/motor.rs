use voiturerc::config::Config;
use voiturerc::motor::{Motor, MOTOR_MAX, MOTOR_MAX_REV, MOTOR_NEUTRAL};

fn unit_gains() -> Config {
    Config::new()
}

fn zero_gains() -> Config {
    let mut config = Config::new();
    config.kp = 0;
    config.ki = 0;
    config.kd = 0;
    config
}

#[test]
fn duty_map_is_piecewise_linear() {
    let mut m = Motor::new(&zero_gains());
    // full forward
    assert_eq!(m.set_speed_esc(1_000_000), 1_000_000);
    assert_eq!(m.duty, MOTOR_MAX);
    // half forward
    assert_eq!(m.set_speed_esc(500_000), 500_000);
    assert_eq!(m.duty, 85_000);
    // neutral
    assert_eq!(m.set_speed_esc(0), 0);
    assert_eq!(m.duty, MOTOR_NEUTRAL);
    // half reverse
    assert_eq!(m.set_speed_esc(-500_000), -500_000);
    assert_eq!(m.duty, 55_000);
    // full reverse
    assert_eq!(m.set_speed_esc(-1_000_000), -1_000_000);
    assert_eq!(m.duty, MOTOR_MAX_REV);
}

#[test]
fn out_of_range_commands_force_neutral() {
    let mut m = Motor::new(&zero_gains());
    assert_eq!(m.set_speed_esc(1_000_001), 0);
    assert_eq!(m.duty, MOTOR_NEUTRAL);
    assert_eq!(m.set_speed_esc(-1_000_001), 0);
    assert_eq!(m.duty, MOTOR_NEUTRAL);
    assert_eq!(m.set_speed_esc(i64::MAX), 0);
    assert_eq!(m.duty, MOTOR_NEUTRAL);
    assert_eq!(m.set_speed_esc(i64::MIN), 0);
    assert_eq!(m.duty, MOTOR_NEUTRAL);
}

#[test]
fn pid_tick_with_unit_gains() {
    // command (speed = 0.8) with Kp = Ki = Kd = 1.0 and measured speed 0:
    // error = 0.8, integral after one 100 ms tick = 0.08, derivative = 8.0,
    // so the command 0.8 + 0.8 + 0.08 + 8.0 fails the fail-closed range
    // check and the duty cycle stays at forward-neutral.
    let mut m = Motor::new(&unit_gains());
    let r = m.set_speed_elapsed(800_000, 0, 100_000);
    assert_eq!(m.last_error, 800_000);
    assert_eq!(m.error_integral, 80_000);
    assert_eq!(r, 0);
    assert_eq!(m.duty, MOTOR_NEUTRAL);
}

#[test]
fn pid_integral_accumulates_across_ticks() {
    let mut m = Motor::new(&unit_gains());
    m.set_speed_elapsed(800_000, 0, 100_000);
    m.set_speed_elapsed(800_000, 0, 100_000);
    assert_eq!(m.error_integral, 160_000);
    assert_eq!(m.last_error, 800_000);
}

#[test]
fn pid_in_range_command_reaches_the_duty_map() {
    // small error, proportional gain only: command = wanted + Kp * error
    let mut config = zero_gains();
    config.kp = 1_000_000;
    let mut m = Motor::new(&config);
    // wanted 0.1, measured 0: error = 0.1, command = 0.2
    let r = m.set_speed_elapsed(100_000, 0, 100_000);
    assert_eq!(r, 200_000);
    assert_eq!(m.duty, MOTOR_NEUTRAL + 200_000 * 30_000 / 1_000_000);
}

#[test]
fn measured_speed_is_normalized_by_max_speed() {
    let mut m = Motor::new(&zero_gains());
    // measured 15 km/h out of 30 km/h = 0.5 normalized
    assert_eq!(m.normalize_speed(15_000_000), 500_000);
    // with zero gains the command is the wanted speed alone, but the error
    // is recorded against the normalized measurement
    m.set_speed_elapsed(800_000, 15_000_000, 100_000);
    assert_eq!(m.last_error, 300_000);
}

#[test]
fn zero_error_keeps_the_integral_fixed() {
    let mut m = Motor::new(&unit_gains());
    m.set_speed_elapsed(800_000, 0, 100_000);
    let accumulated = m.error_integral;
    for _ in 0..50 {
        m.set_speed_elapsed(0, 0, 100_000);
    }
    assert_eq!(m.error_integral, accumulated);
}

#[test]
fn safety_latch_is_permanent() {
    let mut m = Motor::new(&unit_gains());
    m.set_speed_esc(500_000);
    m.safe_stop();
    assert_eq!(m.duty, 0);
    // any later command reports neutral and leaves the output untouched
    assert_eq!(m.set_speed_esc(500_000), 0);
    assert_eq!(m.duty, 0);
    assert_eq!(m.set_speed_elapsed(800_000, 0, 100_000), 0);
    assert_eq!(m.duty, 0);
    assert_eq!(m.set_speed(300_000, 0), 0);
    assert_eq!(m.duty, 0);
}

#[test]
fn latched_controller_still_tracks_the_error() {
    let mut m = Motor::new(&unit_gains());
    m.safe_stop();
    m.set_speed_elapsed(800_000, 0, 100_000);
    assert_eq!(m.last_error, 800_000);
    assert_eq!(m.error_integral, 80_000);
    assert_eq!(m.duty, 0);
}

#[test]
fn internal_clock_path_runs() {
    let mut m = Motor::new(&zero_gains());
    let r = m.set_speed(500_000, 0);
    assert_eq!(r, 500_000);
    assert_eq!(m.duty, 85_000);
}
