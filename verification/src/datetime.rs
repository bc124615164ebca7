//! Calendar arithmetic on Unix timestamps, as the `time` crate performs it.
use vstd::prelude::*;

use crate::text::{digit_char};

verus! {

/// The earliest timestamp `time` accepts: -9999-01-01T00:00:00Z.
pub open spec fn min_timestamp() -> int {
    -377705116800
}

/// The latest timestamp `time` accepts: 9999-12-31T23:59:59Z.
pub open spec fn max_timestamp() -> int {
    253402300799
}

/// The timestamp of 0000-01-01T00:00:00Z, the earliest that RFC 3339 can write.
pub open spec fn year_zero_timestamp() -> int {
    -62167219200
}

/// The proleptic Gregorian date `(year, month, day)` of the day `days` days after
/// 1970-01-01, as `time` computes it.
pub uninterp spec fn civil_date(days: int) -> (int, int, int);

/// What `OffsetDateTime::parse(s, &Rfc3339)` followed by `unix_timestamp()` gives for `s`:
/// the Unix timestamp of an RFC 3339 date-time, or `None` when `s` is not one.
pub uninterp spec fn rfc3339_timestamp(s: Seq<char>) -> Option<int>;

/// A UTC date and time of day, to the second.
#[derive(Debug, Clone, Copy, PartialEq, Eq)]
pub struct UtcDateTime {
    pub year: i32,
    pub month: u8,
    pub day: u8,
    pub hour: u8,
    pub minute: u8,
    pub second: u8,
}

/// `d` is the UTC date and time of the Unix timestamp `ts`.
pub open spec fn utc_date_time_is(d: UtcDateTime, ts: int) -> bool {
    let secs = ts % 86400;
    &&& (d.year as int, d.month as int, d.day as int) == civil_date(ts / 86400)
    &&& d.hour == secs / 3600
    &&& d.minute == (secs % 3600) / 60
    &&& d.second == secs % 60
    &&& 1 <= d.month <= 12
    &&& 1 <= d.day <= 31
    &&& -9999 <= d.year <= 9999
}

/// The UTC date and time of the Unix timestamp `ts`, or `None` outside the years
/// -9999 to 9999.
///
/// Trusted: calls `time::OffsetDateTime::from_unix_timestamp` and reads the year, month,
/// day, hour, minute and second of the result. The time of day is the remainder of `ts`
/// modulo one day, as its source computes it; the calendar date is named `civil_date`.
#[verifier::external_body]
pub(crate) fn utc_from_unix_timestamp(ts: i64) -> (r: Option<UtcDateTime>)
    ensures
        r is Some <==> min_timestamp() <= ts <= max_timestamp(),
        r matches Some(d) ==> utc_date_time_is(d, ts as int) && (
            d.year as int,
            d.month as int,
            d.day as int,
        ) == civil_date(ts as int / 86400),
{
    time::OffsetDateTime::from_unix_timestamp(ts).ok().map(
        |dt| UtcDateTime {
            year: dt.year(),
            month: dt.month() as u8,
            day: dt.day(),
            hour: dt.hour(),
            minute: dt.minute(),
            second: dt.second(),
        },
    )
}

pub open spec fn two_digits(n: int) -> Seq<char> {
    seq![digit_char(n / 10), digit_char(n % 10)]
}

pub open spec fn four_digits(n: int) -> Seq<char> {
    seq![digit_char(n / 1000), digit_char((n / 100) % 10), digit_char((n / 10) % 10), digit_char(n % 10)]
}

/// `YYYY-MM-DDTHH:MM:SSZ` for the UTC date and time of `ts`.
pub open spec fn rfc3339_text(ts: int) -> Seq<char> {
    let (y, m, d) = civil_date(ts / 86400);
    let secs = ts % 86400;
    four_digits(y) + seq!['-'] + two_digits(m) + seq!['-'] + two_digits(d) + seq!['T']
        + two_digits(secs / 3600) + seq![':'] + two_digits((secs % 3600) / 60) + seq![':']
        + two_digits(secs % 60) + seq!['Z']
}

/// `ts` as an RFC 3339 UTC date-time, or `None` outside the years 0 to 9999.
///
/// Trusted: calls `time::OffsetDateTime::from_unix_timestamp` and formats the result with
/// `time`'s `Rfc3339` description, which writes four year digits, two-digit fields, no
/// fraction for a whole second and `Z` for UTC, and refuses years outside 0 to 9999.
#[verifier::external_body]
pub(crate) fn rfc3339_from_unix_timestamp(ts: i64) -> (r: Option<String>)
    ensures
        r is Some <==> year_zero_timestamp() <= ts <= max_timestamp(),
        r matches Some(s) ==> s@ == rfc3339_text(ts as int) && s@.subrange(0, 10) == four_digits(
            civil_date(ts as int / 86400).0,
        ) + seq!['-'] + two_digits(civil_date(ts as int / 86400).1) + seq!['-'] + two_digits(
            civil_date(ts as int / 86400).2,
        ),
{
    time::OffsetDateTime::from_unix_timestamp(ts).ok().and_then(
        |dt| dt.format(&time::format_description::well_known::Rfc3339).ok(),
    )
}

/// The Unix timestamp of the RFC 3339 date-time `s`.
///
/// Trusted: calls `time::OffsetDateTime::parse(s, &Rfc3339)` and `unix_timestamp()`; the
/// result is named `rfc3339_timestamp`. An RFC 3339 date-time has a four-digit year and an
/// offset under a day, which bounds the timestamp.
#[verifier::external_body]
pub(crate) fn parse_rfc3339_timestamp(s: &str) -> (r: Option<i64>)
    ensures
        match r {
            Some(v) => rfc3339_timestamp(s@) == Some(v as int) && -62167400000 <= v
                <= 253402400000,
            None => rfc3339_timestamp(s@) is None,
        },
{
    time::OffsetDateTime::parse(s, &time::format_description::well_known::Rfc3339).ok().map(
        |dt| dt.unix_timestamp(),
    )
}

} // verus!
