//! Closed-loop motor control: a PID over the commanded speed and the wheel
//! speed measured by the Hall sensor, an out-of-range command forced to
//! neutral (fail-closed), a piecewise-linear duty-cycle map with independent
//! forward and reverse slopes, and a one-way safety latch.
//!
//! All quantities are fixed-point micro-units: a command of `SCALE` is full
//! forward, `-SCALE` full reverse; speeds are micro-km/h; duty cycles are
//! micro-fractions of a PWM period.

use vstd::prelude::*;
use vstd::arithmetic::div_mod::lemma_div_is_ordered;
use vstd::arithmetic::mul::lemma_mul_inequality;
use crate::config::Config;
use crate::clock::{instant_now, micros_between};
use crate::fixed::{
    abs, lemma_tdiv_bound, lemma_tdiv_mag, mul_div_sat, mul_wide, sat64, sat_to_i64, tdiv,
    tdiv_i128, SCALE,
};

verus! {

/// Top speed used to normalize measured speed, in km/h.
pub const MAX_SPEED: i64 = 30;

/// Duty cycle at rest (micro-fraction of the PWM period).
pub const MOTOR_NEUTRAL: i64 = 70_000;

/// Duty cycle at full forward command.
pub const MOTOR_MAX: i64 = 100_000;

/// Duty cycle at full reverse command.
pub const MOTOR_MAX_REV: i64 = 40_000;

/// The one-way safety latch: an actuator is active until its safety stop, and
/// stopped forever after — there is no transition back.
#[derive(Clone, Copy, PartialEq, Eq, Structural, Debug)]
pub enum LatchState {
    Active,
    Stopped,
}

/// A command outside [-SCALE, SCALE] is not saturated but forced to neutral:
/// the effective value used for the duty cycle is zero.
pub open spec fn clamp_command(c: int) -> int {
    if c < -SCALE || c > SCALE {
        0
    } else {
        c
    }
}

/// The duty cycle commanded by an effective command in [-SCALE, SCALE]:
/// neutral at zero, linear toward `MOTOR_MAX` forward and toward
/// `MOTOR_MAX_REV` in reverse.
pub open spec fn motor_duty(eff: int) -> int {
    if eff < 0 {
        MOTOR_NEUTRAL - tdiv((-eff) * ((MOTOR_NEUTRAL - MOTOR_MAX_REV) as int), SCALE as int)
    } else if eff > 0 {
        MOTOR_NEUTRAL + tdiv(eff * ((MOTOR_MAX - MOTOR_NEUTRAL) as int), SCALE as int)
    } else {
        MOTOR_NEUTRAL as int
    }
}

/// The PID error: commanded speed minus the measured speed normalized by
/// `MAX_SPEED`.
pub open spec fn pid_error(wanted: int, sensor: int) -> int {
    sat64(wanted - tdiv(sensor, MAX_SPEED as int))
}

/// The integral accumulator after one step of `dt_us` microseconds.
pub open spec fn pid_integral(integral: int, error: int, dt_us: int) -> int {
    sat64(integral + tdiv(error * dt_us, SCALE as int))
}

/// The derivative term over a step of `dt_us` microseconds.
pub open spec fn pid_derivative(error: int, last_error: int, dt_us: int) -> int {
    sat64(tdiv((error - last_error) * (SCALE as int), dt_us))
}

/// The raw PID command before the fail-closed clamp.
pub open spec fn pid_command(
    wanted: int,
    kp: int,
    ki: int,
    kd: int,
    error: int,
    integral: int,
    derivative: int,
) -> int {
    sat64(
        wanted + tdiv(kp * error, SCALE as int) + tdiv(ki * integral, SCALE as int) + tdiv(
            kd * derivative,
            SCALE as int,
        ),
    )
}

/// One step of the direct duty-cycle stage: which duty the hardware is left
/// at and which effective command is reported, given the latch state.
pub open spec fn esc_step(mode: LatchState, duty: int, command: int) -> (int, int) {
    if mode is Stopped {
        (duty, 0)
    } else {
        (motor_duty(clamp_command(command)), clamp_command(command))
    }
}

/// The motor controller. `duty` mirrors the duty cycle last handed to the PWM
/// output; the caller drives the hardware from it.
pub struct Motor {
    pub mode: LatchState,
    pub kp: i64,
    pub ki: i64,
    pub kd: i64,
    pub last_error: i64,
    pub error_integral: i64,
    pub duty: i64,
    pub last_update: std::time::Instant,
}

/// How one call of the speed loop relates the controller after the call to
/// the controller before it, for an elapsed time of `dt_us` microseconds and
/// a reported result of `r`.
pub open spec fn set_speed_rel(
    pre: Motor,
    post: Motor,
    wanted: int,
    sensor: int,
    dt_us: int,
    r: int,
) -> bool {
    let e = pid_error(wanted, sensor);
    let i = pid_integral(pre.error_integral as int, e, dt_us);
    let d = pid_derivative(e, pre.last_error as int, dt_us);
    let c = pid_command(wanted, pre.kp as int, pre.ki as int, pre.kd as int, e, i, d);
    &&& post.mode == pre.mode
    &&& post.kp == pre.kp
    &&& post.ki == pre.ki
    &&& post.kd == pre.kd
    &&& post.last_error == e
    &&& post.error_integral == i
    &&& (post.duty as int, r) == esc_step(pre.mode, pre.duty as int, c)
}

impl Motor {
    /// A fresh, unlatched controller with the configured gains, resting at
    /// the neutral duty cycle.
    pub fn new(config: &Config) -> (m: Motor)
        ensures
            m.mode is Active,
            m.kp == config.kp && m.ki == config.ki && m.kd == config.kd,
            m.last_error == 0 && m.error_integral == 0,
            m.duty == MOTOR_NEUTRAL,
    {
        Motor {
            mode: LatchState::Active,
            kp: config.kp,
            ki: config.ki,
            kd: config.kd,
            last_error: 0,
            error_integral: 0,
            duty: MOTOR_NEUTRAL,
            last_update: instant_now(),
        }
    }

    /// Normalize a speed in micro-km/h by the configured top speed.
    pub fn normalize_speed(&self, speed: i64) -> (r: i64)
        ensures
            r == tdiv(speed as int, MAX_SPEED as int),
    {
        proof {
            lemma_tdiv_bound(speed as int, MAX_SPEED as int);
        }
        let q = tdiv_i128(speed as i128, MAX_SPEED as i128);
        q as i64
    }

    /// One PID step over an elapsed time measured by the controller itself
    /// between this call and the previous one (at least one microsecond).
    /// Returns the effective command: the clamped PID output, or zero once
    /// latched.
    pub fn set_speed(&mut self, wanted_speed: i64, sensor_speed: i64) -> (r: i64)
        ensures
            exists|dt_us: int|
                1 <= dt_us && set_speed_rel(
                    *old(self),
                    *final(self),
                    wanted_speed as int,
                    sensor_speed as int,
                    dt_us,
                    r as int,
                ),
    {
        let now = instant_now();
        let measured = micros_between(&self.last_update, &now);
        let dt_us: u64 = if measured == 0 {
            1
        } else {
            measured
        };
        self.last_update = now;
        let r = self.set_speed_elapsed(wanted_speed, sensor_speed, dt_us);
        proof {
            assert(set_speed_rel(
                *old(self),
                *self,
                wanted_speed as int,
                sensor_speed as int,
                dt_us as int,
                r as int,
            ));
        }
        r
    }

    /// One PID step over a given elapsed time in microseconds: error,
    /// integral and derivative are updated even when latched; only the duty
    /// cycle is frozen by the latch.
    pub fn set_speed_elapsed(&mut self, wanted_speed: i64, sensor_speed: i64, dt_us: u64) -> (r:
        i64)
        requires
            1 <= dt_us,
        ensures
            set_speed_rel(
                *old(self),
                *final(self),
                wanted_speed as int,
                sensor_speed as int,
                dt_us as int,
                r as int,
            ),
    {
        // error = wanted - measured, with the measurement normalized
        proof {
            lemma_tdiv_bound(sensor_speed as int, MAX_SPEED as int);
        }
        let norm = tdiv_i128(sensor_speed as i128, MAX_SPEED as i128);
        let error = sat_to_i64((wanted_speed as i128) - norm);

        // integral += error * dt
        proof {
            assert((error as int) * (dt_us as int) <= i128::MAX && (error as int) * (dt_us as int)
                >= i128::MIN) by (nonlinear_arith)
                requires
                    i64::MIN <= error <= i64::MAX,
                    1 <= dt_us <= u64::MAX,
            ;
        }
        let grown = tdiv_i128((error as i128) * (dt_us as i128), SCALE as i128);
        let integral = sat_to_i64((self.error_integral as i128) + grown);
        self.error_integral = integral;

        // derivative = (error - last_error) / dt
        let diff = (error as i128) - (self.last_error as i128);
        proof {
            assert(diff * (SCALE as int) <= i128::MAX && diff * (SCALE as int) >= i128::MIN)
                by (nonlinear_arith)
                requires
                    -36893488147419103232 <= diff <= 36893488147419103232,
                    SCALE == 1_000_000,
            ;
        }
        let derivative = sat_to_i64(tdiv_i128(diff * (SCALE as i128), dt_us as i128));
        self.last_error = error;

        // command = wanted + kp*error + ki*integral + kd*derivative
        let tp = tdiv_i128(mul_wide(self.kp, error), SCALE as i128);
        let ti = tdiv_i128(mul_wide(self.ki, integral), SCALE as i128);
        let td = tdiv_i128(mul_wide(self.kd, derivative), SCALE as i128);
        proof {
            assert(abs((self.kp as int) * (error as int)) <= 0x4000_0000_0000_0000_0000_0000_0000_0000
                && abs((self.ki as int) * (integral as int))
                <= 0x4000_0000_0000_0000_0000_0000_0000_0000 && abs(
                (self.kd as int) * (derivative as int),
            ) <= 0x4000_0000_0000_0000_0000_0000_0000_0000) by (nonlinear_arith)
                requires
                    i64::MIN <= self.kp <= i64::MAX,
                    i64::MIN <= self.ki <= i64::MAX,
                    i64::MIN <= self.kd <= i64::MAX,
                    i64::MIN <= error <= i64::MAX,
                    i64::MIN <= integral <= i64::MAX,
                    i64::MIN <= derivative <= i64::MAX,
            ;
            lemma_tdiv_mag(
                (self.kp as int) * (error as int),
                SCALE as int,
                0x4000_0000_0000_0000_0000_0000_0000_0000,
            );
            lemma_tdiv_mag(
                (self.ki as int) * (integral as int),
                SCALE as int,
                0x4000_0000_0000_0000_0000_0000_0000_0000,
            );
            lemma_tdiv_mag(
                (self.kd as int) * (derivative as int),
                SCALE as int,
                0x4000_0000_0000_0000_0000_0000_0000_0000,
            );
        }
        let command = sat_to_i64((wanted_speed as i128) + tp + ti + td);

        self.set_speed_esc(command)
    }

    /// The direct duty-cycle stage: clamp the command fail-closed, map it to
    /// a duty cycle, and honour the safety latch. Returns the effective
    /// command actually applied.
    pub fn set_speed_esc(&mut self, speed: i64) -> (r: i64)
        ensures
            final(self).mode == old(self).mode,
            final(self).kp == old(self).kp && final(self).ki == old(self).ki && final(self).kd
                == old(self).kd,
            final(self).last_error == old(self).last_error,
            final(self).error_integral == old(self).error_integral,
            (final(self).duty as int, r as int) == esc_step(
                old(self).mode,
                old(self).duty as int,
                speed as int,
            ),
    {
        match self.mode {
            LatchState::Stopped => {
                return 0;
            },
            LatchState::Active => {},
        }
        let eff: i64 = if speed < -SCALE || speed > SCALE {
            0
        } else {
            speed
        };
        let cycle: i64 = if eff < 0 {
            proof {
                lemma_motor_scaled_bound(-eff as int, (MOTOR_NEUTRAL - MOTOR_MAX_REV) as int);
            }
            MOTOR_NEUTRAL - mul_div_sat(-eff, MOTOR_NEUTRAL - MOTOR_MAX_REV, SCALE)
        } else if eff > 0 {
            proof {
                lemma_motor_scaled_bound(eff as int, (MOTOR_MAX - MOTOR_NEUTRAL) as int);
            }
            MOTOR_NEUTRAL + mul_div_sat(eff, MOTOR_MAX - MOTOR_NEUTRAL, SCALE)
        } else {
            MOTOR_NEUTRAL
        };
        self.duty = cycle;
        eff
    }

    /// The irreversible safety stop: the duty cycle is forced to zero and the
    /// latch closes; no later call changes the duty cycle again.
    pub fn safe_stop(&mut self)
        ensures
            final(self).mode is Stopped,
            final(self).duty == 0,
            final(self).kp == old(self).kp && final(self).ki == old(self).ki && final(self).kd
                == old(self).kd,
            final(self).last_error == old(self).last_error,
            final(self).error_integral == old(self).error_integral,
    {
        self.duty = 0;
        self.mode = LatchState::Stopped;
    }
}

/// For an effective command of magnitude at most `SCALE` and a slope of at
/// most 30 000, the scaled interpolation stays within one slope step.
proof fn lemma_motor_scaled_bound(mag: int, slope: int)
    requires
        0 <= mag <= SCALE,
        0 <= slope <= 30_000,
    ensures
        0 <= tdiv(mag * slope, SCALE as int) <= slope,
        sat64(tdiv(mag * slope, SCALE as int)) == tdiv(mag * slope, SCALE as int),
{
    lemma_mul_inequality(mag, SCALE as int, slope);
    assert(mag * slope >= 0) by (nonlinear_arith)
        requires
            mag >= 0 && slope >= 0,
    ;
    lemma_tdiv_bound(mag * slope, SCALE as int);
    lemma_div_is_ordered(mag * slope, (SCALE as int) * slope, SCALE as int);
    assert((SCALE as int) * slope / (SCALE as int) == slope) by (nonlinear_arith)
        requires
            SCALE == 1_000_000 && 0 <= slope <= 30_000,
    ;
}

/// Whatever the raw command, the duty cycle handed to the hardware lies
/// between the full-reverse and full-forward stops.
pub proof fn lemma_duty_always_within_stops(c: int)
    ensures
        MOTOR_MAX_REV <= motor_duty(clamp_command(c)) <= MOTOR_MAX,
{
    let eff = clamp_command(c);
    if eff < 0 {
        lemma_motor_scaled_bound(-eff, (MOTOR_NEUTRAL - MOTOR_MAX_REV) as int);
    } else if eff > 0 {
        lemma_motor_scaled_bound(eff, (MOTOR_MAX - MOTOR_NEUTRAL) as int);
    }
}

/// The fail-closed clamp: any commanded speed outside the unit range drives
/// the duty cycle to neutral, never to a saturated extreme.
pub proof fn lemma_out_of_range_command_is_neutral(c: int)
    ensures
        (c < -SCALE || c > SCALE) ==> clamp_command(c) == 0 && motor_duty(clamp_command(c))
            == MOTOR_NEUTRAL,
{
}

/// Zero wanted and zero measured speed give zero error, and a zero-error step
/// leaves the integral accumulator exactly where it was, for every dt > 0: no
/// unbounded growth under zero error.
pub proof fn lemma_zero_error_integral_stable(integral: int, dt_us: int)
    requires
        1 <= dt_us,
        i64::MIN <= integral <= i64::MAX,
    ensures
        pid_error(0, 0) == 0,
        pid_integral(integral, pid_error(0, 0), dt_us) == integral,
{
    assert(tdiv(0, MAX_SPEED as int) == 0);
    assert(pid_error(0, 0) == 0);
    assert(0 * dt_us == 0) by (nonlinear_arith);
    assert(tdiv(0, SCALE as int) == 0);
}

/// The safety latch is idempotent: once stopped, every later speed command —
/// whatever its value — reports zero and leaves the duty cycle exactly as the
/// stop left it.
pub proof fn lemma_safety_latch_idempotent(duty: int, speed1: int, speed2: int)
    ensures
        esc_step(LatchState::Stopped, duty, speed1).0 == duty,
        esc_step(LatchState::Stopped, duty, speed1).1 == 0,
        esc_step(LatchState::Stopped, esc_step(LatchState::Stopped, duty, speed1).0, speed2).0
            == duty,
{
}

} // verus!
