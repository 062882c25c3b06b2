//! Points in time, held as the seconds and nanoseconds of a UNIX timestamp, and
//! what the `chrono` crate computes from them.

use vstd::prelude::*;
use crate::text::{decimal, digit_char};

verus! {

/// The first second that chrono represents: January 1 of the year -262143.
pub open spec fn chrono_min_secs() -> int {
    -8_334_601_228_800
}

/// The last second that chrono represents: December 31 of the year 262142, 23:59:59.
pub open spec fn chrono_max_secs() -> int {
    8_210_266_876_799
}

/// Whether chrono represents the UNIX time `secs` seconds and `nanos` nanoseconds
/// as a `DateTime<Utc>`: a second within its range of dates, and nanoseconds
/// below one second, or below two seconds in a leap second (a minute's 59th).
pub open spec fn spec_chrono_valid(secs: i64, nanos: u32) -> bool {
    &&& chrono_min_secs() <= secs <= chrono_max_secs()
    &&& (nanos < 1_000_000_000 || (nanos < 2_000_000_000 && secs % 60 == 59))
}

/// chrono's whole seconds from `then` to `now` (`now.signed_duration_since(then).num_seconds()`).
pub uninterp spec fn spec_elapsed_seconds(now_secs: i64, now_nanos: u32, then_secs: i64, then_nanos: u32) -> i64;

/// The proleptic Gregorian (year, month, day) of the day `days` after
/// January 1, 1970.
pub open spec fn civil_date(days: int) -> (int, int, int) {
    let z = days + 719_468;
    let era = z / 146_097;
    let doe = z - era * 146_097;
    let yoe = (doe - doe / 1460 + doe / 36_524 - doe / 146_096) / 365;
    let doy = doe - (365 * yoe + yoe / 4 - yoe / 100);
    let mp = (5 * doy + 2) / 153;
    let d = doy - (153 * mp + 2) / 5 + 1;
    let m = if mp < 10 { mp + 3 } else { mp - 9 };
    let y = yoe + era * 400;
    (if m <= 2 { y + 1 } else { y }, m, d)
}

/// A number below 100 as two digits.
pub open spec fn two_digits(n: int) -> Seq<char> {
    seq![digit_char(n / 10), digit_char(n % 10)]
}

/// A number below 10000 as four digits.
pub open spec fn four_digits(n: int) -> Seq<char> {
    seq![digit_char(n / 1000), digit_char(n / 100 % 10), digit_char(n / 10 % 10), digit_char(n % 10)]
}

/// chrono's `%Y`: a year from 0 to 9999 as four digits; any other with its sign
/// and at least four digits.
pub open spec fn year_text(y: int) -> Seq<char> {
    if 0 <= y <= 9999 {
        four_digits(y)
    } else {
        let a = if y < 0 { -y } else { y };
        (if y < 0 { seq!['-'] } else { seq!['+'] }) + (if a < 10_000 { four_digits(a) } else { decimal(a as nat) })
    }
}

/// chrono's `%Y-%m-%d` text of a UTC time.
pub open spec fn spec_format_ymd(secs: i64, nanos: u32) -> Seq<char> {
    let date = civil_date(secs / 86_400);
    year_text(date.0) + seq!['-'] + two_digits(date.1) + seq!['-'] + two_digits(date.2)
}

/// chrono's `%Y-%m-%d %H:%M:%S UTC` text of a UTC time; in a leap second
/// (nanoseconds of a second or more) the seconds read 60.
pub open spec fn spec_format_ymd_hms_utc(secs: i64, nanos: u32) -> Seq<char> {
    let sod = secs % 86_400;
    spec_format_ymd(secs, nanos) + seq![' '] + two_digits(sod / 3600) + seq![':'] + two_digits(sod / 60 % 60)
        + seq![':'] + two_digits(sod % 60 + nanos / 1_000_000_000) + seq![' ', 'U', 'T', 'C']
}

/// The UTC time that chrono reads from an RFC 3339 text, if it accepts it.
pub uninterp spec fn spec_parse_rfc3339(text: Seq<char>) -> Option<(i64, u32)>;

/// Division rounding toward zero, as Rust's `/` on signed integers does.
pub open spec fn trunc_div(a: int, b: int) -> int {
    if a >= 0 { a / b } else { -((-a) / b) }
}

/// chrono's `DateTime::from_timestamp(secs, nanos).is_some()`.
/// Trusted: the answer is `spec_chrono_valid(secs, nanos)`: chrono's date range
/// (`NaiveDate::from_num_days_from_ce_opt` between its `MIN_YEAR` and `MAX_YEAR`)
/// and its rule for leap-second nanoseconds
/// (`NaiveTime::from_num_seconds_from_midnight_opt`).
#[verifier::external_body]
fn chrono_accepts(secs: i64, nanos: u32) -> (r: bool)
    ensures
        r == spec_chrono_valid(secs, nanos),
{
    chrono::DateTime::from_timestamp(secs, nanos).is_some()
}

/// std's clock reading, `SystemTime`.
#[verifier::external_type_specification]
#[verifier::external_body]
pub struct ExSystemTime(std::time::SystemTime);

/// std's `SystemTime::now()`. Trusted: nothing is stated of the reading, which
/// the clock decides.
#[verifier::external_body]
fn system_now() -> (r: std::time::SystemTime) {
    std::time::SystemTime::now()
}

/// std's `t.duration_since(UNIX_EPOCH)`, as whole seconds and subsecond
/// nanoseconds. Trusted: a reading before the epoch gives `None`; otherwise the
/// nanoseconds are below one second (`Duration::subsec_nanos`). Which time it is
/// depends on the reading and is not stated.
#[verifier::external_body]
fn unix_parts(t: &std::time::SystemTime) -> (r: Option<(u64, u32)>)
    ensures
        r matches Some(p) ==> p.1 < 1_000_000_000,
{
    match t.duration_since(std::time::UNIX_EPOCH) {
        Ok(d) => Some((d.as_secs(), d.subsec_nanos())),
        Err(_) => None,
    }
}

/// A UTC point in time that chrono can represent.
#[derive(Debug)]
pub struct Timestamp {
    secs: i64,
    nanos: u32,
}

impl View for Timestamp {
    type V = (i64, u32);

    closed spec fn view(&self) -> (i64, u32) {
        (self.secs, self.nanos)
    }
}

impl Timestamp {
    #[verifier::type_invariant]
    closed spec fn representable(self) -> bool {
        spec_chrono_valid(self.secs, self.nanos)
    }

    /// The time `secs` seconds and `nanos` nanoseconds after the UNIX epoch, if chrono
    /// represents it.
    pub fn from_parts(secs: i64, nanos: u32) -> (r: Option<Timestamp>)
        ensures
            r is Some <==> spec_chrono_valid(secs, nanos),
            r matches Some(t) ==> t@ == (secs, nanos),
    {
        if chrono_accepts(secs, nanos) {
            Some(Timestamp { secs, nanos })
        } else {
            None
        }
    }

    /// The current time, as the system clock gives it; `None` when the clock
    /// reads before 1970 or beyond the times that chrono represents.
    pub fn now() -> (r: Option<Timestamp>)
        ensures
            r matches Some(t) ==> spec_chrono_valid(t@.0, t@.1) && t@.0 >= 0 && t@.1 < 1_000_000_000,
    {
        let reading = system_now();
        match unix_parts(&reading) {
            Some((secs, nanos)) => {
                if secs <= 8_210_266_876_799 {
                    Some(Timestamp { secs: secs as i64, nanos })
                } else {
                    None
                }
            },
            None => None,
        }
    }

    /// The whole seconds since the UNIX epoch.
    pub fn secs(&self) -> (r: i64)
        ensures
            r == self@.0,
    {
        self.secs
    }

    /// The nanoseconds past the whole second.
    pub fn nanos(&self) -> (r: u32)
        ensures
            r == self@.1,
    {
        self.nanos
    }

    /// A copy of this time.
    pub fn copy(&self) -> (r: Timestamp)
        ensures
            r@ == self@,
    {
        proof {
            use_type_invariant(self);
        }
        Timestamp { secs: self.secs, nanos: self.nanos }
    }
}

/// chrono's `now.signed_duration_since(then).num_seconds()`.
/// Trusted: the result is the named `spec_elapsed_seconds`; away from leap seconds
/// (both nanosecond parts below one second) it is the difference of the two times,
/// in seconds, rounded toward zero, as chrono's `NaiveTime::signed_duration_since`
/// and `TimeDelta::num_seconds` compute it.
#[verifier::external_body]
fn chrono_elapsed_seconds(now_secs: i64, now_nanos: u32, then_secs: i64, then_nanos: u32) -> (r: i64)
    requires
        spec_chrono_valid(now_secs, now_nanos),
        spec_chrono_valid(then_secs, then_nanos),
    ensures
        r == spec_elapsed_seconds(now_secs, now_nanos, then_secs, then_nanos),
        now_nanos < 1_000_000_000 && then_nanos < 1_000_000_000 ==> r == trunc_div(
            (now_secs - then_secs) * 1_000_000_000 + (now_nanos - then_nanos),
            1_000_000_000,
        ),
{
    let now = chrono::DateTime::from_timestamp(now_secs, now_nanos).unwrap();
    let then = chrono::DateTime::from_timestamp(then_secs, then_nanos).unwrap();
    now.signed_duration_since(then).num_seconds()
}

/// chrono's `format("%Y-%m-%d")` of a UTC time.
/// Trusted: the text is `spec_format_ymd`: the proleptic Gregorian date of the
/// time's day, the year as chrono's `%Y` writes it, month and day in two digits.
#[verifier::external_body]
fn chrono_format_ymd(secs: i64, nanos: u32) -> (r: String)
    requires
        spec_chrono_valid(secs, nanos),
    ensures
        r@ == spec_format_ymd(secs, nanos),
{
    chrono::DateTime::from_timestamp(secs, nanos).unwrap().format("%Y-%m-%d").to_string()
}

/// chrono's `format("%Y-%m-%d %H:%M:%S UTC")` of a UTC time.
/// Trusted: the text is `spec_format_ymd_hms_utc`: the date as `spec_format_ymd`
/// writes it, then hours, minutes and seconds of the day in two digits (a leap
/// second reads 60), then ` UTC`.
#[verifier::external_body]
fn chrono_format_ymd_hms_utc(secs: i64, nanos: u32) -> (r: String)
    requires
        spec_chrono_valid(secs, nanos),
    ensures
        r@ == spec_format_ymd_hms_utc(secs, nanos),
{
    chrono::DateTime::from_timestamp(secs, nanos).unwrap().format("%Y-%m-%d %H:%M:%S UTC").to_string()
}

/// chrono's `DateTime::parse_from_rfc3339(text)` converted to UTC, as timestamp parts.
/// Trusted: the result is the named `spec_parse_rfc3339`, and a time that chrono
/// gives back is one that it represents.
#[verifier::external_body]
fn chrono_parse_rfc3339(text: &str) -> (r: Option<(i64, u32)>)
    ensures
        r == spec_parse_rfc3339(text@),
        r matches Some(p) ==> spec_chrono_valid(p.0, p.1),
{
    match chrono::DateTime::parse_from_rfc3339(text) {
        Ok(dt) => {
            let utc = dt.with_timezone(&chrono::Utc);
            Some((utc.timestamp(), utc.timestamp_subsec_nanos()))
        },
        Err(_) => None,
    }
}

/// The whole seconds from `then` to `now`, rounded toward zero.
pub fn elapsed_seconds(now: &Timestamp, then: &Timestamp) -> (r: i64)
    ensures
        r == spec_elapsed_seconds(now@.0, now@.1, then@.0, then@.1),
        now@.1 < 1_000_000_000 && then@.1 < 1_000_000_000 ==> r == trunc_div(
            (now@.0 - then@.0) * 1_000_000_000 + (now@.1 - then@.1),
            1_000_000_000,
        ),
{
    proof {
        use_type_invariant(now);
        use_type_invariant(then);
    }
    chrono_elapsed_seconds(now.secs, now.nanos, then.secs, then.nanos)
}

/// The date of `t` as `YYYY-MM-DD`.
pub fn format_ymd(t: &Timestamp) -> (r: String)
    ensures
        r@ == spec_format_ymd(t@.0, t@.1),
{
    proof {
        use_type_invariant(t);
    }
    chrono_format_ymd(t.secs, t.nanos)
}

/// The date and time of `t` as `YYYY-MM-DD HH:MM:SS UTC`.
pub fn format_ymd_hms_utc(t: &Timestamp) -> (r: String)
    ensures
        r@ == spec_format_ymd_hms_utc(t@.0, t@.1),
{
    proof {
        use_type_invariant(t);
    }
    chrono_format_ymd_hms_utc(t.secs, t.nanos)
}

/// The UTC time that an RFC 3339 text denotes, if chrono accepts the text.
pub fn parse_rfc3339(text: &str) -> (r: Option<Timestamp>)
    ensures
        match spec_parse_rfc3339(text@) {
            Some(p) => r matches Some(t) && t@ == p,
            None => r is None,
        },
{
    match chrono_parse_rfc3339(text) {
        Some((secs, nanos)) => Some(Timestamp { secs, nanos }),
        None => None,
    }
}

} // verus!
