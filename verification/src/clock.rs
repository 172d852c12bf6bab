//! The monotonic clock, as far as the bucket needs it.

use vstd::prelude::*;
use crate::time_span::TimeSpan;
use tokio::time::Instant;

verus! {

/// `tokio::time::Instant`, a point on the monotonic clock. Nothing inside it
/// is visible to proofs.
#[verifier::external_type_specification]
#[verifier::external_body]
pub struct ExInstant(tokio::time::Instant);

/// Reads the clock through `tokio::time::Instant::now`. Nothing is claimed
/// about the instant that comes back.
#[verifier::external_body]
pub(crate) fn clock_now() -> Instant {
    Instant::now()
}

/// The time from `earlier` to `later`, by the subtraction of two
/// `tokio::time::Instant`s, which gives zero where `earlier` is the later of
/// the two. Nothing is claimed about the span that comes back.
#[verifier::external_body]
pub(crate) fn elapsed_between(later: &Instant, earlier: &Instant) -> TimeSpan {
    let delta = *later - *earlier;
    TimeSpan { secs: delta.as_secs(), nanos: delta.subsec_nanos() }
}

} // verus!
