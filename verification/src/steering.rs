//! The steering actuator: a stateless map from a steer command in
//! [-SCALE, SCALE] to a duty cycle between the full-left and full-right
//! stops, with the same fail-closed clamp and one-way safety latch as the
//! motor.

use vstd::prelude::*;
use crate::fixed::{sat64, tdiv, SCALE};
use crate::motor::{clamp_command, LatchState};

verus! {

/// Duty cycle with the wheels straight.
pub const STEER_MID: i64 = 76_000;

/// Duty cycle at full left command.
pub const STEER_LEFT: i64 = 88_000;

/// Duty cycle at full right command.
pub const STEER_RIGHT: i64 = 64_000;

/// The duty cycle commanded by an effective steer command in
/// [-SCALE, SCALE]: centered at zero, linear toward `STEER_LEFT` for negative
/// commands and toward `STEER_RIGHT` for positive ones.
pub open spec fn steer_duty(eff: int) -> int {
    if eff < 0 {
        STEER_MID + tdiv((-eff) * ((STEER_LEFT - STEER_MID) as int), SCALE as int)
    } else if eff > 0 {
        STEER_MID - tdiv(eff * ((STEER_MID - STEER_RIGHT) as int), SCALE as int)
    } else {
        STEER_MID as int
    }
}

/// One step of the steering stage: the duty the hardware is left at, given
/// the latch state.
pub open spec fn steer_step(mode: LatchState, duty: int, command: int) -> int {
    if mode is Stopped {
        duty
    } else {
        steer_duty(clamp_command(command))
    }
}

/// How one steer command relates the actuator after the call to the actuator
/// before it.
pub open spec fn steer_applied(pre: Steering, post: Steering, steer: int) -> bool {
    post.mode == pre.mode && post.duty as int == steer_step(pre.mode, pre.duty as int, steer)
}

/// The steering actuator. `duty` mirrors the duty cycle last handed to the
/// PWM output; the caller drives the hardware from it.
pub struct Steering {
    pub mode: LatchState,
    pub duty: i64,
}

impl Steering {
    /// A fresh, unlatched actuator with the wheels straight.
    pub fn new() -> (s: Steering)
        ensures
            s.mode is Active,
            s.duty == STEER_MID,
    {
        Steering { mode: LatchState::Active, duty: STEER_MID }
    }

    /// Apply a steer command: clamp it fail-closed, map it to a duty cycle,
    /// and honour the safety latch.
    pub fn set_steer(&mut self, steer: i64) -> (r: i64)
        ensures
            final(self).mode == old(self).mode,
            final(self).duty as int == steer_step(old(self).mode, old(self).duty as int, steer as int),
            r == final(self).duty,
    {
        match self.mode {
            LatchState::Stopped => {
                return self.duty;
            },
            LatchState::Active => {},
        }
        let eff: i64 = if steer < -SCALE || steer > SCALE {
            0
        } else {
            steer
        };
        let cycle: i64 = if eff < 0 {
            proof {
                lemma_steer_scaled_bound(-eff as int);
            }
            STEER_MID + scaled_deflection(-eff)
        } else if eff > 0 {
            proof {
                lemma_steer_scaled_bound(eff as int);
            }
            STEER_MID - scaled_deflection(eff)
        } else {
            STEER_MID
        };
        self.duty = cycle;
        cycle
    }

    /// The irreversible safety stop: the duty cycle is forced to zero and the
    /// latch closes; no later call changes the duty cycle again.
    pub fn safe_stop(&mut self)
        ensures
            final(self).mode is Stopped,
            final(self).duty == 0,
    {
        self.duty = 0;
        self.mode = LatchState::Stopped;
    }
}

/// The deflection from center for a command magnitude in [0, SCALE]: both
/// stops are 12 000 micro-units from center.
fn scaled_deflection(mag: i64) -> (r: i64)
    requires
        0 <= mag <= SCALE,
    ensures
        r == tdiv(mag * 12_000, SCALE as int),
        0 <= r <= 12_000,
{
    proof {
        lemma_steer_scaled_bound(mag as int);
    }
    crate::fixed::mul_div_sat(mag, 12_000, SCALE)
}

/// For a command magnitude of at most `SCALE`, the scaled deflection stays
/// within the 12 000 micro-unit span between center and either stop.
proof fn lemma_steer_scaled_bound(mag: int)
    requires
        0 <= mag <= SCALE,
    ensures
        0 <= tdiv(mag * 12_000, SCALE as int) <= 12_000,
        sat64(tdiv(mag * 12_000, SCALE as int)) == tdiv(mag * 12_000, SCALE as int),
{
    vstd::arithmetic::mul::lemma_mul_inequality(mag, SCALE as int, 12_000);
    assert(mag * 12_000 >= 0) by (nonlinear_arith)
        requires
            mag >= 0,
    ;
    crate::fixed::lemma_tdiv_bound(mag * 12_000, SCALE as int);
    vstd::arithmetic::div_mod::lemma_div_is_ordered(
        mag * 12_000,
        (SCALE as int) * 12_000,
        SCALE as int,
    );
    assert((SCALE as int) * 12_000 / (SCALE as int) == 12_000) by (nonlinear_arith)
        requires
            SCALE == 1_000_000,
    ;
}

/// Whatever the raw command, the duty cycle handed to the hardware lies
/// between the full-right and full-left stops.
pub proof fn lemma_steer_duty_always_within_stops(c: int)
    ensures
        STEER_RIGHT <= steer_duty(clamp_command(c)) <= STEER_LEFT,
{
    let eff = clamp_command(c);
    if eff < 0 {
        lemma_steer_scaled_bound(-eff);
    } else if eff > 0 {
        lemma_steer_scaled_bound(eff);
    }
}

/// The fail-closed clamp for steering: any steer command outside the unit
/// range leaves the wheels at the centered duty cycle.
pub proof fn lemma_out_of_range_steer_is_centered(c: int)
    ensures
        (c < -SCALE || c > SCALE) ==> clamp_command(c) == 0 && steer_duty(clamp_command(c))
            == STEER_MID,
{
}

/// The steering latch is idempotent: once stopped, every later steer command
/// leaves the duty cycle exactly as the stop left it.
pub proof fn lemma_steering_latch_idempotent(duty: int, steer1: int, steer2: int)
    ensures
        steer_step(LatchState::Stopped, duty, steer1) == duty,
        steer_step(LatchState::Stopped, steer_step(LatchState::Stopped, duty, steer1), steer2)
            == duty,
{
}

} // verus!
