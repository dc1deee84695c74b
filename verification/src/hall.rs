//! The Hall wheel-speed sensor: polled at high frequency on a dedicated
//! input pin, it times the gap between two rising edges — one full wheel
//! revolution — and turns it into a linear speed in micro-km/h. No filtering
//! is applied: consumers smooth or time out on their own.

use vstd::prelude::*;
use crate::clock::{instant_now, micros_between};

verus! {

/// Diameter of the driven wheel, in millimeters.
pub const DIAMETRE_ROUE_ENTRAINEE: u64 = 600;

/// One full revolution in micro-radians, times one million: dividing by the
/// gap in microseconds gives the angular speed in micro-radians per second.
pub const TOUR_COMPLET: u64 = 6_283_185_000_000;

/// The speed in micro-km/h computed from a gap of `dt_us` microseconds
/// between two rising edges: angular speed of the measured wheel, times the
/// driven wheel's radius, converted from m/s to km/h.
pub open spec fn hall_speed(dt_us: int) -> int {
    let angulaire = (TOUR_COMPLET as int) / dt_us;  // micro-rad/s
    let lineaire = angulaire * ((DIAMETRE_ROUE_ENTRAINEE / 2) as int) / 1000;  // micro-m/s
    lineaire * 36 / 10  // micro-km/h
}

/// The wheel-speed sensor state: the pin level at the previous poll, the
/// last computed speed, and the instant of the last rising edge.
pub struct Hall {
    pub last_state: bool,
    pub speed: u64,
    pub last_time: std::time::Instant,
}

impl Hall {
    /// A fresh sensor: no edge seen yet, speed zero.
    pub fn new() -> (h: Hall)
        ensures
            h.last_state == false,
            h.speed == 0,
    {
        Hall { last_state: false, speed: 0, last_time: instant_now() }
    }

    /// One poll with the elapsed time supplied: on a rising edge — pin high
    /// now, low at the previous poll — the speed is recomputed from the gap
    /// since the previous edge (a gap of zero counts as one microsecond);
    /// otherwise the speed is kept. The edge-detection state is updated on
    /// every poll.
    pub fn update_edge(&mut self, pin_high: bool, elapsed_us: u64) -> (rising: bool)
        ensures
            final(self).last_state == pin_high,
            rising == (pin_high && !old(self).last_state),
            rising ==> final(self).speed as int == hall_speed(
                if elapsed_us == 0 {
                    1
                } else {
                    elapsed_us as int
                },
            ),
            !rising ==> final(self).speed == old(self).speed,
            final(self).last_time == old(self).last_time,
    {
        let rising = pin_high && !self.last_state;
        if rising {
            let dt_us: u64 = if elapsed_us == 0 {
                1
            } else {
                elapsed_us
            };
            let angulaire = TOUR_COMPLET / dt_us;
            proof {
                crate::fixed::lemma_tdiv_bound(TOUR_COMPLET as int, dt_us as int);
            }
            let lineaire = angulaire * (DIAMETRE_ROUE_ENTRAINEE / 2) / 1000;
            proof {
                crate::fixed::lemma_tdiv_bound(angulaire as int * 300, 1000);
            }
            self.speed = lineaire * 36 / 10;
        }
        self.last_state = pin_high;
        rising
    }

    /// One poll against the sensor's own clock: on a rising edge the gap is
    /// measured from the previous rising edge, which is re-armed; otherwise
    /// only the edge-detection state advances.
    pub fn update(&mut self, pin_high: bool)
        ensures
            final(self).last_state == pin_high,
            (pin_high && !old(self).last_state) ==> exists|dt_us: int|
                1 <= dt_us && final(self).speed as int == hall_speed(dt_us),
            !(pin_high && !old(self).last_state) ==> final(self).speed == old(self).speed,
    {
        let rising = pin_high && !self.last_state;
        if rising {
            let now = instant_now();
            let elapsed = micros_between(&self.last_time, &now);
            let ghost dt_chosen: int = if elapsed == 0 {
                1
            } else {
                elapsed as int
            };
            self.update_edge(pin_high, elapsed);
            self.last_time = now;
            proof {
                assert(self.speed as int == hall_speed(dt_chosen));
            }
        } else {
            self.update_edge(pin_high, 0);
        }
    }

    /// The last computed speed, in micro-km/h. It decays implicitly — never
    /// reset — when edges stop: callers apply their own staleness policy.
    pub fn get_speed(&self) -> (r: u64)
        ensures
            r == self.speed,
    {
        self.speed
    }
}

} // verus!
