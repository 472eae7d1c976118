//! `chrono`'s wall clock.
use crate::time::{MAX_SECS, NANOS_PER_SEC};
use chrono::Utc;
use vstd::prelude::*;

verus! {

/// Calls `Utc::now`: the seconds since the Unix epoch and the nanoseconds
/// beyond them. The time is never before the epoch nor past the calendar's
/// end; nothing else is known of it.
#[verifier::external_body]
pub(crate) fn utc_now() -> (parts: (i64, u32))
    ensures
        0 <= parts.0 <= MAX_SECS,
        parts.1 < NANOS_PER_SEC,
{
    let now = Utc::now();
    (now.timestamp(), now.timestamp_subsec_nanos())
}

} // verus!
