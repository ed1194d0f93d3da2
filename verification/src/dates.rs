//! Calendar dates and instants parsed from text by `chrono`.
use vstd::prelude::*;

use chrono::Datelike;

use crate::text::{nat_digits, padded_digits, push_char, push_padded};

verus! {

/// Whether `y` is a leap year of the proleptic Gregorian calendar.
pub open spec fn is_leap(y: int) -> bool {
    y % 4 == 0 && (y % 100 != 0 || y % 400 == 0)
}

/// The number of days of month `m` in year `y`.
pub open spec fn days_in_month(y: int, m: int) -> int {
    if m == 2 {
        if is_leap(y) {
            29
        } else {
            28
        }
    } else if m == 4 || m == 6 || m == 9 || m == 11 {
        30
    } else {
        31
    }
}

/// Whether `(y, m, d)` names a day of the calendar.
pub open spec fn valid_ymd(y: int, m: int, d: int) -> bool {
    1 <= m <= 12 && 1 <= d <= days_in_month(y, m)
}

/// The first year of `chrono::NaiveDate`.
pub const MIN_YEAR: i32 = -262143i32;

/// The last year of `chrono::NaiveDate`.
pub const MAX_YEAR: i32 = 262142i32;

/// A calendar day.
#[derive(Debug, Clone, Copy, PartialEq, Eq, Structural)]
pub struct Ymd {
    pub year: i32,
    pub month: u32,
    pub day: u32,
}

/// An instant: seconds since the Unix epoch plus nanoseconds.
#[derive(Debug, Clone, Copy, PartialEq, Eq, Structural)]
pub struct Instant {
    pub secs: i64,
    pub nanos: u32,
}

/// What `NaiveDate::parse_from_str(s, "%Y-%m-%d")` yields, as year, month and day.
pub uninterp spec fn naive_date_ymd(s: Seq<char>) -> Option<(int, int, int)>;

/// What `DateTime::parse_from_rfc3339(s)` yields, as seconds and nanoseconds.
pub uninterp spec fn rfc3339_instant(s: Seq<char>) -> Option<(int, int)>;

/// Parses `s` with `NaiveDate::parse_from_str(s, "%Y-%m-%d")`. A date it yields is a
/// day of the calendar, in the years that `NaiveDate` spans (`NaiveDate::MIN` is
/// -262143-01-01 and `NaiveDate::MAX` is +262142-12-31).
#[verifier::external_body]
pub(crate) fn parse_ymd(s: &str) -> (r: Option<Ymd>)
    ensures
        r matches Some(d) ==> naive_date_ymd(s@) == Some((d.year as int, d.month as int, d.day as int)),
        r is None ==> naive_date_ymd(s@) is None,
        r matches Some(d) ==> valid_ymd(d.year as int, d.month as int, d.day as int),
        r matches Some(d) ==> MIN_YEAR <= d.year <= MAX_YEAR,
{
    match chrono::NaiveDate::parse_from_str(s, "%Y-%m-%d") {
        Ok(d) => Some(Ymd { year: d.year(), month: d.month(), day: d.day() }),
        Err(_) => None,
    }
}

/// Parses `s` with `DateTime::parse_from_rfc3339`, as the instant it names.
#[verifier::external_body]
pub(crate) fn parse_rfc3339(s: &str) -> (r: Option<Instant>)
    ensures
        r matches Some(t) ==> rfc3339_instant(s@) == Some((t.secs as int, t.nanos as int)),
        r is None ==> rfc3339_instant(s@) is None,
{
    match chrono::DateTime::parse_from_rfc3339(s) {
        Ok(t) => Some(Instant { secs: t.timestamp(), nanos: t.timestamp_subsec_nanos() }),
        Err(_) => None,
    }
}

/// chrono's four-digit year (`%Y`, and the year of a date's `Display`): zero-padded to
/// 4 digits, with a sign outside 0..=9999.
pub open spec fn year_text(y: int) -> Seq<char> {
    if y < 0 {
        seq!['-'] + padded_digits((-y) as nat, 4)
    } else if y > 9999 {
        seq!['+'] + nat_digits(y as nat)
    } else {
        padded_digits(y as nat, 4)
    }
}

/// A date as `NaiveDate` displays it: `YYYY-MM-DD`.
pub open spec fn date_text(d: Ymd) -> Seq<char> {
    year_text(d.year as int) + seq!['-'] + padded_digits(d.month as nat, 2) + seq!['-']
        + padded_digits(d.day as nat, 2)
}

/// Appends the year `y` as `year_text` writes it.
pub fn push_year(out: &mut String, y: i32)
    ensures
        final(out)@ == old(out)@ + year_text(y as int),
{
    let ghost s0 = out@;
    if y < 0 {
        push_char(out, '-');
        push_padded(out, (-(y as i64)) as u64, 4);
        assert(out@ =~= s0 + year_text(y as int));
    } else if y > 9999 {
        push_char(out, '+');
        push_padded(out, y as u64, 0);
        assert(padded_digits(y as nat, 0) == nat_digits(y as nat));
        assert(out@ =~= s0 + year_text(y as int));
    } else {
        push_padded(out, y as u64, 4);
    }
}

/// The text of a date, `YYYY-MM-DD`.
pub fn ymd_text(d: &Ymd) -> (r: String)
    ensures
        r@ == date_text(*d),
{
    let mut out = String::new();
    push_year(&mut out, d.year);
    push_char(&mut out, '-');
    push_padded(&mut out, d.month as u64, 2);
    push_char(&mut out, '-');
    push_padded(&mut out, d.day as u64, 2);
    assert(out@ =~= date_text(*d));
    out
}

} // verus!
