use crate::error::Error;
use chrono::Datelike;
use chrono::Timelike;
use vstd::prelude::*;
use vstd::string::StringExecFns;
use vstd::string::StringSliceAdditionalSpecFns;

verus! {

/// What `chrono` date parsing with format `%Y-%m-%d` yields on a given text:
/// year, month and day, or nothing when the text does not match the format.
/// Parsing is a pure function of the text.
pub uninterp spec fn parsed_date(s: Seq<char>) -> Option<(i32, u32, u32)>;

/// What `chrono` date-time parsing with format `%Y-%m-%d %H:%M:%S` yields on
/// a given text: year, month, day, hour, minute and second. A pure function
/// of the text.
pub uninterp spec fn parsed_datetime(s: Seq<char>) -> Option<(i32, u32, u32, u32, u32, u32)>;

/// Relies on `chrono::NaiveDate::parse_from_str` with format `%Y-%m-%d`: a
/// parsed value is a valid calendar date within chrono's supported year
/// range.
#[verifier::external_body]
fn parse_date(s: &str) -> (r: Option<(i32, u32, u32)>)
    ensures
        r == parsed_date(s@),
        r matches Some(t) ==> -262145 <= t.0 <= 262142 && 1 <= t.1 <= 12 && 1 <= t.2 <= 31,
{
    match chrono::NaiveDate::parse_from_str(s, "%Y-%m-%d") {
        Ok(d) => Some((d.year(), d.month(), d.day())),
        Err(_) => None,
    }
}

/// Relies on `chrono::NaiveDateTime::parse_from_str` with format
/// `%Y-%m-%d %H:%M:%S`: a parsed value is a valid calendar date and a valid
/// time of day within chrono's supported ranges.
#[verifier::external_body]
fn parse_datetime(s: &str) -> (r: Option<(i32, u32, u32, u32, u32, u32)>)
    ensures
        r == parsed_datetime(s@),
        r matches Some(t) ==> -262145 <= t.0 <= 262142 && 1 <= t.1 <= 12 && 1 <= t.2 <= 31
            && t.3 <= 23 && t.4 <= 59 && t.5 <= 59,
{
    match chrono::NaiveDateTime::parse_from_str(s, "%Y-%m-%d %H:%M:%S") {
        Ok(dt) => Some(
            (dt.year(), dt.month(), dt.day(), dt.hour(), dt.minute(), dt.second()),
        ),
        Err(_) => None,
    }
}

/// Days elapsed since 1970-01-01 in the proleptic Gregorian calendar, by the
/// standard era decomposition: years are counted from March so that the leap
/// day falls last in the year, eras are 400-year cycles of exactly 146097
/// days, and 719468 is the day number of 1970-01-01 within its era.
pub open spec fn days_from_civil(y: int, m: int, d: int) -> int
    recommends
        1 <= y,
        1 <= m <= 12,
        1 <= d <= 31,
{
    let yp = if m <= 2 {
        y - 1
    } else {
        y
    };
    let era = yp / 400;
    let yoe = yp - era * 400;
    let mp = if m > 2 {
        m - 3
    } else {
        m + 9
    };
    let doy = (153 * mp + 2) / 5 + d - 1;
    let doe = yoe * 365 + yoe / 4 - yoe / 100 + doy;
    era * 146097 + doe - 719468
}

/// Nanoseconds since the Unix epoch of a civil date and time taken as UTC.
pub open spec fn civil_nanos(y: int, m: int, d: int, h: int, mi: int, s: int) -> int {
    (days_from_civil(y, m, d) * 86400 + h * 3600 + mi * 60 + s) * 1_000_000_000
}

/// `civil_nanos` over one parsed tuple.
pub open spec fn nanos_of(t: (i32, u32, u32, u32, u32, u32)) -> int {
    civil_nanos(t.0 as int, t.1 as int, t.2 as int, t.3 as int, t.4 as int, t.5 as int)
}

/// The parsed tuple denotes an instant that an `i64` nanosecond timestamp
/// can carry (and lies in the era arithmetic's supported years).
pub open spec fn representable(t: (i32, u32, u32, u32, u32, u32)) -> bool {
    &&& 1 <= t.0
    &&& i64::MIN <= nanos_of(t) <= i64::MAX
}

/// What parsing a date string yields: the `%Y-%m-%d` format at exactly ten
/// bytes (midnight assumed), the `%Y-%m-%d %H:%M:%S` format otherwise.
pub open spec fn parsed_parts(s: &str) -> Option<(i32, u32, u32, u32, u32, u32)> {
    if s.spec_bytes().len() == 10 {
        match parsed_date(s@) {
            Some(t) => Some((t.0, t.1, t.2, 0u32, 0u32, 0u32)),
            None => None,
        }
    } else {
        parsed_datetime(s@)
    }
}

fn days_from_civil_exec(y: i32, m: u32, d: u32) -> (r: i64)
    requires
        1 <= y <= 262142,
        1 <= m <= 12,
        1 <= d <= 31,
    ensures
        r == days_from_civil(y as int, m as int, d as int),
{
    let yp: u64 = if m <= 2 {
        (y - 1) as u64
    } else {
        y as u64
    };
    let era: u64 = yp / 400;
    let yoe: u64 = yp - era * 400;
    let mp: u64 = if m > 2 {
        (m - 3) as u64
    } else {
        (m + 9) as u64
    };
    let doy: u64 = (153 * mp + 2) / 5 + (d - 1) as u64;
    let doe: u64 = yoe * 365 + yoe / 4 - yoe / 100 + doy;
    (era * 146097 + doe) as i64 - 719468
}

fn civil_to_nanos(y: i32, m: u32, d: u32, h: u32, mi: u32, s: u32) -> (r: Option<i64>)
    requires
        1 <= y <= 262142,
        1 <= m <= 12,
        1 <= d <= 31,
        h <= 23,
        mi <= 59,
        s <= 59,
    ensures
        match r {
            Some(n) => n == civil_nanos(y as int, m as int, d as int, h as int, mi as int, s as int),
            None => !(i64::MIN <= civil_nanos(
                y as int,
                m as int,
                d as int,
                h as int,
                mi as int,
                s as int,
            ) <= i64::MAX),
        },
{
    let days: i64 = days_from_civil_exec(y, m, d);
    let secs: i64 = days * 86400 + (h as i64) * 3600 + (mi as i64) * 60 + (s as i64);
    if -9_223_372_036i64 <= secs && secs <= 9_223_372_036i64 {
        Some(secs * 1_000_000_000)
    } else {
        None
    }
}

/// Convert a date string to nanoseconds since the Unix epoch, taken as UTC.
///
/// A ten-byte string is read as `%Y-%m-%d` with the time set to midnight;
/// any other length is read as `%Y-%m-%d %H:%M:%S`. A string that does not
/// parse, or denotes an instant outside what an `i64` nanosecond timestamp
/// can carry, is a `ParseError`.
pub fn date_to_unix_nanos(date_str: &str) -> (r: Result<i64, Error>)
    ensures
        match r {
            Ok(n) => (parsed_parts(date_str) matches Some(t) && representable(t) && n == nanos_of(
                t,
            )),
            Err(e) => (e matches Error::ParseError(_)) && !(parsed_parts(date_str) matches Some(t)
                && representable(t)),
        },
{
    let parts: (i32, u32, u32, u32, u32, u32);
    if date_str.as_bytes().len() == 10 {
        match parse_date(date_str) {
            Some(t) => {
                parts = (t.0, t.1, t.2, 0u32, 0u32, 0u32);
            },
            None => {
                return Err(Error::ParseError(String::from_str("invalid date string")));
            },
        }
    } else {
        match parse_datetime(date_str) {
            Some(t) => {
                parts = t;
            },
            None => {
                return Err(Error::ParseError(String::from_str("invalid date string")));
            },
        }
    }
    if parts.0 < 1 {
        return Err(Error::ParseError(String::from_str("date out of supported range")));
    }
    match civil_to_nanos(parts.0, parts.1, parts.2, parts.3, parts.4, parts.5) {
        Some(n) => Ok(n),
        None => Err(Error::ParseError(String::from_str("date out of supported range"))),
    }
}

} // verus!
