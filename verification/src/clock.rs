//! The monotonic clock of the standard library, as far as the pacing code
//! reads it.
//!
//! Nothing is assumed about the values that the clock hands out: every
//! function that reads it is verified for any elapsed time.

use std::time::Duration;
use std::time::Instant;
use vstd::prelude::*;

verus! {

/// `std::time::Instant`, an opaque point on the monotonic clock.
#[verifier::external_type_specification]
#[verifier::external_body]
pub struct ExInstant(Instant);

/// `Instant::now` returns the current point in time. Nothing is claimed of it.
pub assume_specification[ Instant::now ]() -> (now: Instant);

/// `Instant::saturating_duration_since` returns the time that has passed from
/// `earlier` to `later`, or zero where `earlier` is the later of the two.
/// Nothing is claimed of it.
pub assume_specification[ Instant::saturating_duration_since ](
    later: &Instant,
    earlier: Instant,
) -> (elapsed: Duration);

/// `Duration::as_millis` returns the whole milliseconds of a duration.
/// Nothing is claimed of it.
pub assume_specification[ Duration::as_millis ](duration: &Duration) -> (millis: u128);

/// `Duration::as_nanos` returns the nanoseconds of a duration. Nothing is
/// claimed of it.
pub assume_specification[ Duration::as_nanos ](duration: &Duration) -> (nanos: u128);

} // verus!
