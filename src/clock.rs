//! Calls into chrono for the current time, calendar formatting and the
//! parsing of upstream timestamps. Instants are milliseconds since the Unix
//! epoch (UTC) throughout the library.

use vstd::prelude::*;

verus! {

/// The strftime patterns that this library hands to chrono. Each is made of
/// `%Y %m %d %H %M %S %I %P` and literal text only, which chrono's
/// formatter writes for any date and time without error.
pub open spec fn known_pattern(fmt: Seq<char>) -> bool {
    ||| fmt == "%m/%d"@
    ||| fmt == "%I:%M %P"@
    ||| fmt == "%Y-%m-%dT%H:%M:%S"@
    ||| fmt == "%Y-%m-%d"@
}

/// What chrono writes for the UTC instant `ms` under the strftime pattern
/// `fmt`; `None` where `ms` lies outside chrono's range of dates.
pub uninterp spec fn utc_formatted(ms: i64, fmt: Seq<char>) -> Option<Seq<char>>;

/// What chrono's `NaiveDateTime::parse_from_str` reads from `s` under the
/// pattern `fmt`, taken as UTC and given as milliseconds since the epoch;
/// `None` where chrono reports a parse error.
pub uninterp spec fn naive_utc_millis(s: Seq<char>, fmt: Seq<char>) -> Option<i64>;

/// Relies on chrono's `From<SystemTime> for DateTime<Utc>` (with
/// `DateTime::timestamp_millis`): the wall clock now, negative before 1970.
/// Nothing is known of the value. chrono fails only for a clock beyond its
/// range of about 262,000 years, which the system clock cannot hold.
#[verifier::external_body]
pub(crate) fn now_millis() -> i64 {
    chrono::DateTime::<chrono::Utc>::from(std::time::SystemTime::now()).timestamp_millis()
}

/// Relies on chrono's `DateTime::from_timestamp_millis` (which gives `None`
/// out of range) and `DateTime::format` with `to_string`: `ms` written in UTC
/// under `fmt`.
#[verifier::external_body]
pub(crate) fn format_utc(ms: i64, fmt: &str) -> (r: Option<String>)
    requires
        known_pattern(fmt@),
    ensures
        r is Some <==> utc_formatted(ms, fmt@) is Some,
        r is Some ==> r->0@ == utc_formatted(ms, fmt@)->0,
{
    match chrono::DateTime::from_timestamp_millis(ms) {
        Some(t) => Some(t.format(fmt).to_string()),
        None => None,
    }
}

/// Relies on chrono's `DateTime::from_timestamp_millis` (which gives `None`
/// out of range), `with_timezone(&Local)` and `offset().local_minus_utc()`:
/// the machine's offset from UTC at the instant `ms`, in seconds. It depends
/// on the machine's time zone, so nothing is stated of it. chrono falls back
/// to UTC where no zone data can be read; it panics only on corrupt zone data,
/// which no argument can rule out.
#[verifier::external_body]
pub(crate) fn local_offset_secs(ms: i64) -> Option<i32> {
    match chrono::DateTime::from_timestamp_millis(ms) {
        Some(t) => Some(t.with_timezone(&chrono::Local).offset().local_minus_utc()),
        None => None,
    }
}

/// Relies on chrono's `NaiveDateTime::parse_from_str`, read as UTC through
/// `and_utc` and `timestamp_millis`.
#[verifier::external_body]
pub(crate) fn parse_naive_utc(s: &str, fmt: &str) -> (r: Option<i64>)
    ensures
        r == naive_utc_millis(s@, fmt@),
{
    match chrono::NaiveDateTime::parse_from_str(s, fmt) {
        Ok(t) => Some(t.and_utc().timestamp_millis()),
        Err(_) => None,
    }
}

} // verus!
