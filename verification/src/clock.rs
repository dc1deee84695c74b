//! Readings of the monotonic clock. The controllers measure the time between
//! their own calls, so the instant type and the two readings are the only
//! trusted pieces: every computation on the elapsed time is verified.

use vstd::prelude::*;

verus! {

#[verifier::external_type_specification]
#[verifier::external_body]
pub struct ExInstant(std::time::Instant);

/// Relies on std's `Instant::now`: a reading of the monotonic clock. Nothing
/// is assumed of its value.
#[verifier::external_body]
pub fn instant_now() -> std::time::Instant {
    std::time::Instant::now()
}

/// Relies on std's `Instant::duration_since`: the microseconds from `earlier`
/// to `later`, which std saturates to zero when `later` is not the later one;
/// here further saturated into `u64`. Nothing is assumed of its value.
#[verifier::external_body]
pub fn micros_between(earlier: &std::time::Instant, later: &std::time::Instant) -> u64 {
    let micros = later.duration_since(*earlier).as_micros();
    if micros > u64::MAX as u128 {
        u64::MAX
    } else {
        micros as u64
    }
}

} // verus!
