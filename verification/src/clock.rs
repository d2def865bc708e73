//! Points in time as plain values, and their text forms through `chrono`.
use vstd::prelude::*;

verus! {

/// A UTC instant: whole seconds since the Unix epoch and the nanoseconds
/// within that second (as `chrono::DateTime::timestamp` and
/// `timestamp_subsec_nanos` report them).
#[derive(Clone, Copy, Debug, PartialEq, Eq, Structural)]
pub struct Timestamp {
    pub secs: i64,
    pub nanos: u32,
}

/// The RFC 3339 text of an instant (`DateTime::<Utc>::to_rfc3339`), or `None`
/// when `DateTime::from_timestamp` rejects the seconds and nanoseconds.
pub uninterp spec fn utc_rfc3339(secs: i64, nanos: u32) -> Option<Seq<char>>;

/// The text of an instant under a `strftime` pattern (`DateTime::<Utc>::format`
/// written out with `to_string`), or `None` when `DateTime::from_timestamp`
/// rejects the seconds and nanoseconds.
pub uninterp spec fn utc_formatted(secs: i64, nanos: u32, pattern: Seq<char>) -> Option<Seq<char>>;

/// The `strftime` pattern of job directory stamps: `20240131-235959`.
pub open spec fn compact_stamp_pattern() -> Seq<char> {
    "%Y%m%d-%H%M%S"@
}

/// The instant lies well inside chrono's calendar (which spans the years
/// 262144 BCE to 262142 CE) and is not a leap second, so
/// `DateTime::from_timestamp` accepts it.
pub open spec fn within_calendar(secs: i64, nanos: u32) -> bool {
    -8_000_000_000_000 <= secs <= 8_000_000_000_000 && nanos < 1_000_000_000
}

/// `chrono::DateTime::<Utc>::to_rfc3339` of the instant built by
/// `DateTime::from_timestamp(secs, nanos)`.
///
/// Trusted: claims that the text depends on the two numbers alone
/// (`utc_rfc3339`), with `None` exactly where `from_timestamp` fails, which
/// it does not do inside the calendar (`within_calendar`).
#[verifier::external_body]
pub(crate) fn rfc3339_text(secs: i64, nanos: u32) -> (r: Option<String>)
    ensures
        r.deep_view() == utc_rfc3339(secs, nanos),
        within_calendar(secs, nanos) ==> r is Some,
{
    chrono::DateTime::from_timestamp(secs, nanos).map(|t| t.to_rfc3339())
}

/// `chrono::DateTime::<Utc>::format(pattern).to_string()` of the instant
/// built by `DateTime::from_timestamp(secs, nanos)`.
///
/// Trusted: claims that the text depends on the numbers and the pattern alone
/// (`utc_formatted`), and that there is a text for every instant inside the
/// calendar (`within_calendar`). Only the job-stamp pattern is admitted,
/// since chrono panics while writing out a pattern it cannot parse.
#[verifier::external_body]
pub(crate) fn formatted_text(secs: i64, nanos: u32, pattern: &str) -> (r: Option<String>)
    requires
        pattern@ == compact_stamp_pattern(),
    ensures
        r.deep_view() == utc_formatted(secs, nanos, pattern@),
        within_calendar(secs, nanos) ==> r is Some,
{
    chrono::DateTime::from_timestamp(secs, nanos).map(|t| t.format(pattern).to_string())
}

/// Nanoseconds from `start` to `now`.
pub open spec fn nanos_between(start: Timestamp, now: Timestamp) -> int {
    (now.secs - start.secs) * 1_000_000_000 + (now.nanos - start.nanos)
}

/// Whole seconds elapsed from `start` to `now`, counting a `now` before
/// `start` as no time at all (`signed_duration_since(..).num_seconds().max(0)`),
/// capped at `u64::MAX`.
pub open spec fn elapsed_seconds_spec(start: Timestamp, now: Timestamp) -> u64 {
    let d = nanos_between(start, now);
    if d <= 0 {
        0
    } else if d / 1_000_000_000 > u64::MAX {
        u64::MAX
    } else {
        (d / 1_000_000_000) as u64
    }
}

/// Whole seconds elapsed from `start` to `now` (see `elapsed_seconds_spec`).
pub fn elapsed_seconds(start: Timestamp, now: Timestamp) -> (r: u64)
    ensures
        r == elapsed_seconds_spec(start, now),
{
    let d: i128 = ((now.secs as i128) - (start.secs as i128)) * 1_000_000_000
        + ((now.nanos as i128) - (start.nanos as i128));
    assert(d == nanos_between(start, now));
    if d <= 0 {
        0
    } else {
        let s: i128 = d / 1_000_000_000;
        if s > 0xffff_ffff_ffff_ffff {
            u64::MAX
        } else {
            s as u64
        }
    }
}

/// The stamp that names a job directory: `render-` and the compact stamp of
/// the start time.
pub open spec fn job_dir_name_spec(now: Timestamp) -> Option<Seq<char>> {
    match utc_formatted(now.secs, now.nanos, compact_stamp_pattern()) {
        Some(stamp) => Some("render-"@ + stamp),
        None => None,
    }
}

/// The name of the directory of a job started at `now`.
pub fn job_dir_name(now: Timestamp) -> (r: Option<String>)
    ensures
        r.deep_view() == job_dir_name_spec(now),
        within_calendar(now.secs, now.nanos) ==> r is Some,
{
    match formatted_text(now.secs, now.nanos, "%Y%m%d-%H%M%S") {
        None => None,
        Some(stamp) => {
            let name = String::from_str("render-");
            Some(name.concat(stamp.as_str()))
        },
    }
}

} // verus!
