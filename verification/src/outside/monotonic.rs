//! std's monotonic clock.
use crate::time::{TimeSpan, NANOS_PER_SEC};
use std::time::Instant;
use vstd::prelude::*;

verus! {

/// A reading of the monotonic clock.
#[verifier::external_type_specification]
#[verifier::external_body]
pub struct ExInstant(Instant);

/// Calls `Instant::now`.
#[verifier::external_body]
pub(crate) fn instant_now() -> (instant: Instant) {
    Instant::now()
}

/// Calls `Instant::elapsed`: the time since the reading, of which nothing is
/// known.
#[verifier::external_body]
pub(crate) fn elapsed_since(origin: &Instant) -> (elapsed: TimeSpan)
    ensures
        elapsed.nanos < NANOS_PER_SEC,
{
    let elapsed = origin.elapsed();
    TimeSpan { secs: elapsed.as_secs(), nanos: elapsed.subsec_nanos() }
}

} // verus!
