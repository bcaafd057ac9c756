//! Monotonic time since a sink was started.

use std::time::Duration;
use std::time::Instant;
use vstd::prelude::*;

verus! {

/// `std::time::Instant`, carried through as an opaque value.
#[verifier::external_type_specification]
#[verifier::external_body]
pub struct ExInstant(std::time::Instant);

/// Calls `Instant::now`. What it returns depends on the clock, so nothing is
/// stated of it.
#[verifier::external_body]
pub(crate) fn instant_now() -> (now: Instant) {
    Instant::now()
}

/// Calls `Instant::elapsed` on `start`. The time that passed depends on the
/// clock, so nothing is stated of the result.
#[verifier::external_body]
pub(crate) fn instant_elapsed(start: &Instant) -> (elapsed: Duration) {
    start.elapsed()
}

/// Calls `Duration::as_millis`: the whole milliseconds in `d`. A `Duration` is
/// opaque here, so the result is left unstated.
#[verifier::external_body]
pub(crate) fn duration_as_millis(d: &Duration) -> (millis: u128) {
    d.as_millis()
}

/// Narrows a millisecond count to the `ElapsedMs` time axis, keeping the low
/// 64 bits as an `as` conversion does.
pub fn elapsed_ms_from_millis(millis: u128) -> (ms: u64)
    ensures
        ms as int == millis as int % 0x1_0000_0000_0000_0000,
{
    let ms = millis as u64;
    assert(ms == millis % 0x1_0000_0000_0000_0000) by (bit_vector)
        requires
            ms == millis as u64,
    ;
    ms
}

} // verus!
