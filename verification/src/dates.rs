//! Timestamp normalization: an optional caller-supplied timestamp string is
//! resolved to a UTC instant, measured in milliseconds since the Unix epoch.
//!
//! A present string is tried against three formats in order, first match
//! wins: an offset-aware RFC 3339 timestamp (converted to UTC), a naive
//! `YYYY-MM-DD HH:MM:SS` read as UTC, and a bare `YYYY-MM-DD` read as UTC
//! midnight.  An absent string defaults to the current time; a present but
//! unparseable string is an error carrying the original input — it never
//! silently defaults.

use vstd::prelude::*;

verus! {

/// The UTC instant, in milliseconds since the Unix epoch, that an
/// offset-aware RFC 3339 timestamp string encodes, or `None` when the string
/// is not such a timestamp.  Stands for what `chrono`'s RFC 3339 parser
/// accepts and returns.
pub uninterp spec fn rfc3339_instant_millis(s: Seq<char>) -> Option<i64>;

/// The UTC instant, in milliseconds since the Unix epoch, encoded by a naive
/// `YYYY-MM-DD HH:MM:SS` string read as already UTC, or `None` when the
/// string does not have that shape.  Stands for what `chrono`'s naive
/// datetime parser accepts and returns.
pub uninterp spec fn naive_datetime_instant_millis(s: Seq<char>) -> Option<i64>;

/// The UTC midnight instant, in milliseconds since the Unix epoch, of a bare
/// `YYYY-MM-DD` date string, or `None` when the string is not such a date.
/// Stands for what `chrono`'s date parser accepts and returns.
pub uninterp spec fn date_only_instant_millis(s: Seq<char>) -> Option<i64>;

/// Relies on `chrono::DateTime::parse_from_rfc3339`: the parse result is a
/// function of the string alone; the parsed instant is converted to UTC and
/// read as milliseconds since the Unix epoch.
#[verifier::external_body]
fn parse_rfc3339_millis(s: &str) -> (r: Option<i64>)
    ensures
        r == rfc3339_instant_millis(s@),
{
    match chrono::DateTime::parse_from_rfc3339(s) {
        Ok(dt) => Some(dt.with_timezone(&chrono::Utc).timestamp_millis()),
        Err(_) => None,
    }
}

/// Relies on `chrono::NaiveDateTime::parse_from_str` with the fixed format
/// `%Y-%m-%d %H:%M:%S`: the parse result is a function of the string alone;
/// the naive value is read as UTC, in milliseconds since the Unix epoch.
#[verifier::external_body]
fn parse_naive_datetime_millis(s: &str) -> (r: Option<i64>)
    ensures
        r == naive_datetime_instant_millis(s@),
{
    match chrono::NaiveDateTime::parse_from_str(s, "%Y-%m-%d %H:%M:%S") {
        Ok(naive) => {
            Some(chrono::DateTime::<chrono::Utc>::from_naive_utc_and_offset(naive, chrono::Utc)
                .timestamp_millis())
        }
        Err(_) => None,
    }
}

/// Relies on `chrono::NaiveDate::parse_from_str` with the fixed format
/// `%Y-%m-%d`: the parse result is a function of the string alone; the date
/// is resolved to UTC midnight, in milliseconds since the Unix epoch.
#[verifier::external_body]
fn parse_date_only_millis(s: &str) -> (r: Option<i64>)
    ensures
        r == date_only_instant_millis(s@),
{
    match chrono::NaiveDate::parse_from_str(s, "%Y-%m-%d") {
        Ok(d) => {
            let naive = d.and_hms_opt(0, 0, 0).unwrap();
            Some(chrono::DateTime::<chrono::Utc>::from_naive_utc_and_offset(naive, chrono::Utc)
                .timestamp_millis())
        }
        Err(_) => None,
    }
}

/// Relies on `chrono::Utc::now` for the current wall-clock time, read as
/// milliseconds since the Unix epoch.  Nothing is promised of the value.
#[verifier::external_body]
pub fn current_time_millis() -> (r: i64)
{
    chrono::Utc::now().timestamp_millis()
}

/// A present timestamp string that none of the three supported formats
/// accepts.  Carries the original input verbatim.
#[derive(Debug)]
pub struct DateParseError {
    pub input: String,
}

/// What a present timestamp string normalizes to: the first of the three
/// supported formats that accepts it decides, and `None` means every format
/// refused it.
pub open spec fn spec_parse_timestamp(s: Seq<char>) -> Option<i64> {
    match rfc3339_instant_millis(s) {
        Option::Some(t) => Some(t),
        Option::None => match naive_datetime_instant_millis(s) {
            Option::Some(t) => Some(t),
            Option::None => date_only_instant_millis(s),
        },
    }
}

/// What an optional timestamp string normalizes to at instant `now_millis`:
/// an absent string defaults to `now_millis`, a present one parses by
/// [`spec_parse_timestamp`].
pub open spec fn spec_normalize(date: Option<String>, now_millis: i64) -> Option<i64> {
    match date {
        Option::None => Some(now_millis),
        Option::Some(s) => spec_parse_timestamp(s@),
    }
}

/// Normalizes an optional timestamp string against the instant `now_millis`:
/// absent input defaults to `now_millis`; present input is tried against the
/// three supported formats in order, first match wins; input that no format
/// accepts fails, carrying the original string.
pub fn normalize_timestamp(date: &Option<String>, now_millis: i64) -> (r: Result<
    i64,
    DateParseError,
>)
    ensures
        match r {
            Result::Ok(t) => spec_normalize(*date, now_millis) == Some(t),
            Result::Err(e) => {
                &&& spec_normalize(*date, now_millis) is None
                &&& *date matches Some(s) && e.input@ == s@
            },
        },
{
    match date {
        None => Ok(now_millis),
        Some(s) => match parse_rfc3339_millis(s.as_str()) {
            Some(t) => Ok(t),
            None => match parse_naive_datetime_millis(s.as_str()) {
                Some(t) => Ok(t),
                None => match parse_date_only_millis(s.as_str()) {
                    Some(t) => Ok(t),
                    None => Err(DateParseError { input: s.clone() }),
                },
            },
        },
    }
}

/// Normalizes an optional timestamp string against the current wall-clock
/// time.  A present string decides independently of the clock; an absent one
/// defaults to the instant this call read the clock.
pub fn normalize_timestamp_now(date: &Option<String>) -> (r: Result<i64, DateParseError>)
    ensures
        match *date {
            Option::None => r is Ok,
            Option::Some(s) => match r {
                Result::Ok(t) => spec_parse_timestamp(s@) == Some(t),
                Result::Err(e) => spec_parse_timestamp(s@) is None && e.input@ == s@,
            },
        },
{
    let now_millis = current_time_millis();
    normalize_timestamp(date, now_millis)
}

} // verus!
