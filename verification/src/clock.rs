//! Monotonic time, as far as the logic reads it: a start instant and the
//! nanoseconds that have passed since it.
use vstd::prelude::*;

verus! {

/// The standard monotonic clock reading, carried through the logic opaquely.
#[verifier::external_type_specification]
#[verifier::external_body]
pub struct ExInstant(std::time::Instant);

/// `Instant::now` reads the clock: nothing is promised of its result.
pub assume_specification[ std::time::Instant::now ]() -> std::time::Instant;

/// `Instant::elapsed` reads the clock: nothing is promised of its result.
pub assume_specification[ std::time::Instant::elapsed ](i: &std::time::Instant) -> std::time::Duration;

/// `Instant::duration_since` reads two clock readings, which are opaque
/// here: nothing is promised of its result.
pub assume_specification[ std::time::Instant::duration_since ](
    i: &std::time::Instant,
    earlier: std::time::Instant,
) -> std::time::Duration;

/// `Duration::as_nanos` gives the whole length of a duration in
/// nanoseconds; a `Duration` is opaque here, so nothing more is stated.
pub assume_specification[ std::time::Duration::as_nanos ](d: &std::time::Duration) -> u128;

} // verus!
