//! Readings of the monotonic clock, for timings that only inform decisions
//! about pacing.
use vstd::prelude::*;

use std::time::{Duration, Instant};

verus! {

/// A point in time (`std::time::Instant`).
#[verifier::external_type_specification]
#[verifier::external_body]
pub struct ExInstant(Instant);

/// The current instant (`Instant::now`). Nothing is promised of the value.
#[verifier::external_body]
pub(crate) fn instant_now() -> Instant {
    Instant::now()
}

/// The time from `origin` to `mark`, zero when `mark` is earlier
/// (`Instant::saturating_duration_since`). Nothing is promised of the
/// value: it depends on the clock readings.
#[verifier::external_body]
pub(crate) fn duration_between(origin: &Instant, mark: &Instant) -> Duration {
    mark.saturating_duration_since(*origin)
}

/// The time since `origin` (`Instant::elapsed`). Nothing is promised of the
/// value: it depends on the clock.
#[verifier::external_body]
pub(crate) fn time_since(origin: &Instant) -> Duration {
    origin.elapsed()
}

/// The whole milliseconds of a span (`Duration::as_millis`). Nothing is
/// promised of the value: a span is opaque here.
#[verifier::external_body]
pub(crate) fn whole_millis(d: Duration) -> u128 {
    d.as_millis()
}

} // verus!
