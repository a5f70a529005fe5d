//! Points in time as text: the stamps that name a run's directories and
//! date its record.

use vstd::prelude::*;
use chrono::DateTime;
use crate::text::optional_text;

verus! {

/// What `chrono` writes for the UTC time `secs` seconds and `nanos`
/// nanoseconds after the Unix epoch under the strftime pattern `pattern`;
/// `None` where it has no such time or cannot write the pattern.
pub uninterp spec fn utc_formatted(secs: i64, nanos: u32, pattern: Seq<char>) -> Option<Seq<char>>;

/// What `chrono` writes for the same time as RFC 3339; `None` where it has
/// no such time.
pub uninterp spec fn utc_rfc3339(secs: i64, nanos: u32) -> Option<Seq<char>>;

/// The pattern of the stamp in the name of a run's output directory.
pub open spec fn run_stamp_pattern() -> Seq<char> {
    "%Y-%m-%dT%H-%M-%S-%3fZ"@
}

/// The pattern of the stamp in the names of a batch run's metadata folders.
pub open spec fn pass_stamp_pattern() -> Seq<char> {
    "%Y%m%d_%H%M%S"@
}

/// `chrono::DateTime::from_timestamp`, then `format` with `pattern`, written
/// out with `DelayedFormat::write_to`. The text depends on the arguments
/// alone: the time is UTC and no locale is involved.
#[verifier::external_body]
fn format_utc(secs: i64, nanos: u32, pattern: &str) -> (r: Option<String>)
    ensures
        optional_text(r) == utc_formatted(secs, nanos, pattern@),
{
    let time = DateTime::from_timestamp(secs, nanos)?;
    let mut text = String::new();
    match time.format(pattern).write_to(&mut text) {
        Ok(_) => Some(text),
        Err(_) => None,
    }
}

/// `chrono::DateTime::from_timestamp`, then `to_rfc3339`.
#[verifier::external_body]
fn rfc3339_utc(secs: i64, nanos: u32) -> (r: Option<String>)
    ensures
        optional_text(r) == utc_rfc3339(secs, nanos),
{
    match DateTime::from_timestamp(secs, nanos) {
        Some(time) => Some(time.to_rfc3339()),
        None => None,
    }
}

/// The stamp in the name of the output directory of a run that starts at
/// the given time: date and time to the millisecond.
pub fn run_stamp(secs: i64, nanos: u32) -> (r: Option<String>)
    ensures
        optional_text(r) == utc_formatted(secs, nanos, run_stamp_pattern()),
{
    format_utc(secs, nanos, "%Y-%m-%dT%H-%M-%S-%3fZ")
}

/// The stamp in the names of the metadata folders that a batch run fills at
/// the given time: date and time to the second.
pub fn pass_stamp(secs: i64, nanos: u32) -> (r: Option<String>)
    ensures
        optional_text(r) == utc_formatted(secs, nanos, pass_stamp_pattern()),
{
    format_utc(secs, nanos, "%Y%m%d_%H%M%S")
}

/// The time that a run's record carries, as RFC 3339.
pub fn record_stamp(secs: i64, nanos: u32) -> (r: Option<String>)
    ensures
        optional_text(r) == utc_rfc3339(secs, nanos),
{
    rfc3339_utc(secs, nanos)
}

} // verus!
