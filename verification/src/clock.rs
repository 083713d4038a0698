//! Calendar text of an instant.

use vstd::prelude::*;

verus! {

/// The last second of the year 9999, in seconds since the epoch.
pub const LAST_FOUR_DIGIT_SECOND: i64 = 253_402_300_799;

/// The text `YYYY-MM-DD HH:MM:SS` of the calendar second that lies
/// `local_secs` seconds after 1970-01-01 00:00:00, or `None` where the
/// calendar does not reach that far.
pub uninterp spec fn civil_stamp(local_secs: int) -> Option<Seq<char>>;

/// The stamp of the instant `unix_secs` seconds after the epoch, on a clock
/// that runs `offset_secs` seconds ahead of universal time.
pub open spec fn stamp_spec(unix_secs: i64, offset_secs: i32) -> Option<Seq<char>> {
    if i64::MIN <= unix_secs + offset_secs <= i64::MAX {
        civil_stamp(unix_secs + offset_secs)
    } else {
        None
    }
}

/// Builds the instant with `chrono::DateTime::from_timestamp` and renders
/// its date and time of day with `chrono::NaiveDateTime::format` under the
/// pattern `%Y-%m-%d %H:%M:%S`. The text is a function of the argument
/// alone and is known here only by its name, `civil_stamp`. The one claim
/// beyond that: from the epoch to the end of the year 9999 the instant
/// exists, so that a text comes back.
#[verifier::external_body]
fn format_civil(local_secs: i64) -> (r: Option<String>)
    ensures
        r matches Some(text) ==> civil_stamp(local_secs as int) == Some(text@),
        r is None ==> civil_stamp(local_secs as int) is None,
        0 <= local_secs <= LAST_FOUR_DIGIT_SECOND ==> r is Some,
{
    let instant = chrono::DateTime::from_timestamp(local_secs, 0)?;
    Some(instant.naive_utc().format("%Y-%m-%d %H:%M:%S").to_string())
}

/// The local date and time of an instant, for the status line.
///
/// `None` comes back where the local second cannot be counted in 64 bits or
/// lies outside the calendar; from the epoch to the end of the year 9999,
/// local time, a stamp is always returned.
pub fn stamp(unix_secs: i64, offset_secs: i32) -> (r: Option<String>)
    ensures
        r matches Some(text) ==> stamp_spec(unix_secs, offset_secs) == Some(text@),
        r is None ==> stamp_spec(unix_secs, offset_secs) is None,
        0 <= unix_secs + offset_secs <= LAST_FOUR_DIGIT_SECOND ==> r is Some,
{
    let local: i128 = unix_secs as i128 + offset_secs as i128;
    if local < i64::MIN as i128 || local > i64::MAX as i128 {
        None
    } else {
        format_civil(local as i64)
    }
}

} // verus!
