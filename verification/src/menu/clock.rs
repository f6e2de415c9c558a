//! The clock that screens expire by.
//!
//! A clock is started once and then read as the number of nanoseconds
//! that have passed since. Nothing is proved of a reading: whatever uses
//! one is verified for every value that it may have.

use vstd::prelude::*;
use std::time::{Duration, Instant};

verus! {

/// A point in time of the system's monotonic clock, `std::time::Instant`.
/// Nothing is known of what it holds.
#[verifier::external_type_specification]
#[verifier::external_body]
pub struct ExInstant(std::time::Instant);

/// Calls `Instant::now`: the present point in time. Nothing is claimed of
/// it.
#[verifier::external_body]
pub(crate) fn present() -> Instant {
    Instant::now()
}

/// Calls `Instant::elapsed`: the time that has passed since `origin`.
/// Nothing is claimed of it.
#[verifier::external_body]
pub(crate) fn elapsed_since(origin: &Instant) -> Duration {
    origin.elapsed()
}

/// Calls `Duration::as_nanos`: the span in nanoseconds. Nothing is claimed
/// of the number.
#[verifier::external_body]
pub(crate) fn nanos_of(span: &Duration) -> u128 {
    span.as_nanos()
}

/// Reads the clock that was started at `origin`: the nanoseconds that have
/// passed since, or the largest reading if there are more than it can hold.
pub(crate) fn read(origin: &Instant) -> u64 {
    let span = elapsed_since(origin);
    let nanos = nanos_of(&span);
    reading_of(nanos)
}

/// The reading that stands for a number of nanoseconds: the number itself,
/// or the largest reading if the number is more than a reading can hold.
pub open spec fn spec_reading_of(nanos: u128) -> u64 {
    if nanos > u64::MAX {
        u64::MAX
    } else {
        nanos as u64
    }
}

/// The reading that stands for `nanos` nanoseconds.
#[verifier::when_used_as_spec(spec_reading_of)]
pub fn reading_of(nanos: u128) -> (reading: u64)
    ensures
        reading == spec_reading_of(nanos),
{
    if nanos > 0xffff_ffff_ffff_ffff {
        0xffff_ffff_ffff_ffff
    } else {
        nanos as u64
    }
}

} // verus!
