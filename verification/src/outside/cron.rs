//! `croner`'s cron expressions.
use crate::time::{MAX_SECS, MIN_SECS, NANOS_PER_SEC};
use chrono::{DateTime, Utc};
use croner::Cron;
use std::str::FromStr;
use vstd::prelude::*;

verus! {

/// What `Cron::from_str` says of an expression: accepted, or the text of the
/// error.
pub uninterp spec fn cron_check(pattern: Seq<char>) -> Result<(), Seq<char>>;

/// The first occurrence of an expression after a point in time, both given as
/// seconds since the Unix epoch and nanoseconds beyond them; `None` where the
/// expression is refused or the search finds nothing.
pub uninterp spec fn cron_next(pattern: Seq<char>, secs: i64, nanos: u32) -> Option<(i64, u32)>;

/// Calls `Cron::from_str`; an error is turned into its text.
#[verifier::external_body]
pub(crate) fn check_pattern(pattern: &str) -> (check: Result<(), String>)
    ensures
        match check {
            Ok(()) => cron_check(pattern@) == Ok::<(), Seq<char>>(()),
            Err(text) => cron_check(pattern@) == Err::<(), Seq<char>>(text@),
        },
{
    Cron::from_str(pattern).map(|_| ()).map_err(|error| error.to_string())
}

/// Calls `Cron::find_next_occurrence`, exclusive of the start, on the parsed
/// expression. What is found is a point of the calendar, and none of the steps
/// of the search makes a leap second.
#[verifier::external_body]
pub(crate) fn next_occurrence(pattern: &str, secs: i64, nanos: u32) -> (next: Option<(i64, u32)>)
    requires
        MIN_SECS <= secs <= MAX_SECS,
        nanos < NANOS_PER_SEC,
    ensures
        next == cron_next(pattern@, secs, nanos),
        next matches Some(next) ==> MIN_SECS <= next.0 <= MAX_SECS && next.1 < NANOS_PER_SEC,
{
    let start = DateTime::<Utc>::from_timestamp(secs, nanos)?;
    let next = Cron::from_str(pattern).ok()?.find_next_occurrence(&start, false).ok()?;
    Some((next.timestamp(), next.timestamp_subsec_nanos()))
}

} // verus!
