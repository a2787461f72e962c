//! Proleptic Gregorian calendar dates as plain values, backed by chrono.

use chrono::Datelike;
use vstd::prelude::*;

verus! {

/// First year that chrono's `NaiveDate` can represent.
pub open spec fn min_year() -> int {
    -262143
}

/// Last year that chrono's `NaiveDate` can represent.
pub open spec fn max_year() -> int {
    262142
}

/// Leap years of the proleptic Gregorian calendar.
pub open spec fn is_leap_year(y: int) -> bool {
    y % 4 == 0 && (y % 100 != 0 || y % 400 == 0)
}

/// Number of days of month `m` (1..=12) in year `y`.
pub open spec fn days_in_month(y: int, m: int) -> int {
    if m == 2 {
        if is_leap_year(y) { 29 } else { 28 }
    } else if m == 4 || m == 6 || m == 9 || m == 11 {
        30
    } else {
        31
    }
}

/// `(y, m, d)` names a calendar day that chrono can represent.
pub open spec fn valid_ymd(y: int, m: int, d: int) -> bool {
    &&& min_year() <= y <= max_year()
    &&& 1 <= m <= 12
    &&& 1 <= d <= days_in_month(y, m)
}

/// A calendar date (year, month 1..=12, day of month 1..).
#[derive(Clone, Copy, Debug, PartialEq, Eq, Hash, Structural)]
pub struct CalendarDate {
    pub year: i32,
    pub month: u32,
    pub day: u32,
}

impl CalendarDate {
    /// The date names a real, representable calendar day.
    pub open spec fn wf(self) -> bool {
        valid_ymd(self.year as int, self.month as int, self.day as int)
    }
}

/// The day before `d`, if it is representable.
pub open spec fn spec_pred(d: CalendarDate) -> Option<CalendarDate> {
    if d.day > 1 {
        Some(CalendarDate { year: d.year, month: d.month, day: (d.day - 1) as u32 })
    } else if d.month > 1 {
        Some(CalendarDate {
            year: d.year,
            month: (d.month - 1) as u32,
            day: days_in_month(d.year as int, d.month - 1) as u32,
        })
    } else if d.year > min_year() {
        Some(CalendarDate { year: (d.year - 1) as i32, month: 12, day: 31 })
    } else {
        None
    }
}

/// The day after `d`, if it is representable.
pub open spec fn spec_succ(d: CalendarDate) -> Option<CalendarDate> {
    if (d.day as int) < days_in_month(d.year as int, d.month as int) {
        Some(CalendarDate { year: d.year, month: d.month, day: (d.day + 1) as u32 })
    } else if d.month < 12 {
        Some(CalendarDate { year: d.year, month: (d.month + 1) as u32, day: 1 })
    } else if d.year < max_year() {
        Some(CalendarDate { year: (d.year + 1) as i32, month: 1, day: 1 })
    } else {
        None
    }
}

/// Builds a date from its parts through `chrono::NaiveDate::from_ymd_opt`.
///
/// chrono documents that the call fails exactly on an invalid month or day
/// and on a year outside its range; the contract states that rule.
#[verifier::external_body]
pub fn from_ymd_opt(year: i32, month: u32, day: u32) -> (r: Option<CalendarDate>)
    ensures
        r is Some <==> valid_ymd(year as int, month as int, day as int),
        r matches Some(c) ==> c.year == year && c.month == month && c.day == day,
{
    chrono::NaiveDate::from_ymd_opt(year, month, day).map(|_| CalendarDate { year, month, day })
}


/// The previous calendar day through `chrono::NaiveDate::pred_opt`.
///
/// chrono returns `None` only on its first representable date; otherwise the
/// day before, which `spec_pred` writes out.
#[verifier::external_body]
pub fn pred_opt(d: CalendarDate) -> (r: Option<CalendarDate>)
    requires
        d.wf(),
    ensures
        r == spec_pred(d),
{
    let n = chrono::NaiveDate::from_ymd_opt(d.year, d.month, d.day).unwrap();
    n.pred_opt().map(|p| CalendarDate { year: p.year(), month: p.month(), day: p.day() })
}

/// The next calendar day through `chrono::NaiveDate::succ_opt`.
///
/// chrono returns `None` only on its last representable date; otherwise the
/// day after, which `spec_succ` writes out.
#[verifier::external_body]
pub fn succ_opt(d: CalendarDate) -> (r: Option<CalendarDate>)
    requires
        d.wf(),
    ensures
        r == spec_succ(d),
{
    let n = chrono::NaiveDate::from_ymd_opt(d.year, d.month, d.day).unwrap();
    n.succ_opt().map(|p| CalendarDate { year: p.year(), month: p.month(), day: p.day() })
}

/// Today's date in the local time zone, from `chrono::Local::now`.
///
/// The result depends on the clock and the time zone; all that is stated is
/// that it is a representable calendar day.
#[verifier::external_body]
pub fn local_today() -> (r: CalendarDate)
    ensures
        r.wf(),
{
    let n = chrono::Local::now().date_naive();
    CalendarDate { year: n.year(), month: n.month(), day: n.day() }
}

/// Day-of-week offset of the first of `m` in a year starting on a Sunday
/// (with January and February counted in the year before).
pub open spec fn month_weekday_offset(m: int) -> int {
    if m == 1 { 0 }
    else if m == 2 { 3 }
    else if m == 3 { 2 }
    else if m == 4 { 5 }
    else if m == 5 { 0 }
    else if m == 6 { 3 }
    else if m == 7 { 5 }
    else if m == 8 { 1 }
    else if m == 9 { 4 }
    else if m == 10 { 6 }
    else if m == 11 { 2 }
    else { 4 }
}

/// Weekday of the date `d`, counted from Monday (0) to Sunday (6), in the
/// proleptic Gregorian calendar (Sakamoto's rule, with floor division so
/// that it holds for years before 1 as well).
pub open spec fn weekday_from_monday(d: CalendarDate) -> u32 {
    let y: int = if d.month < 3 { d.year - 1 } else { d.year as int };
    let from_sunday = (y + y / 4 - y / 100 + y / 400 + month_weekday_offset(d.month as int)
        + d.day) % 7;
    ((from_sunday + 6) % 7) as u32
}

/// Weekday of `d` through chrono's `Datelike::weekday` and
/// `Weekday::num_days_from_monday`.
///
/// chrono counts days on the proleptic Gregorian calendar, so the weekday is
/// the one `weekday_from_monday` computes, in `0..7` with Monday 0.
#[verifier::external_body]
pub fn weekday_index(d: CalendarDate) -> (r: u32)
    requires
        d.wf(),
    ensures
        r == weekday_from_monday(d),
        r < 7,
{
    chrono::NaiveDate::from_ymd_opt(d.year, d.month, d.day).unwrap().weekday().num_days_from_monday()
}

/// Number of days of `month` in `year`.
pub fn month_length(year: i32, month: u32) -> (r: u32)
    requires
        1 <= month <= 12,
    ensures
        r == days_in_month(year as int, month as int),
{
    if month == 2 {
        if year % 4 == 0 && (year % 100 != 0 || year % 400 == 0) {
            29
        } else {
            28
        }
    } else if month == 4 || month == 6 || month == 9 || month == 11 {
        30
    } else {
        31
    }
}

/// `a` is a strictly earlier day than `b`.
pub open spec fn date_before(a: CalendarDate, b: CalendarDate) -> bool {
    a.year < b.year || (a.year == b.year && (a.month < b.month || (a.month == b.month
        && a.day < b.day)))
}

/// Whether `a` is a strictly earlier day than `b`.
pub fn is_before(a: CalendarDate, b: CalendarDate) -> (r: bool)
    ensures
        r == date_before(a, b),
{
    if a.year != b.year {
        a.year < b.year
    } else if a.month != b.month {
        a.month < b.month
    } else {
        a.day < b.day
    }
}

/// Every representable day but the first has a predecessor, and the day
/// after that predecessor is the day itself.
pub proof fn lemma_succ_of_pred(d: CalendarDate)
    requires
        d.wf(),
    ensures
        spec_pred(d) matches Some(p) ==> p.wf() && spec_succ(p) == Some(d),
        spec_pred(d) is None <==> (d.year == min_year() && d.month == 1 && d.day == 1),
{
}

/// Every representable day but the last has a successor, and the day before
/// that successor is the day itself.
pub proof fn lemma_pred_of_succ(d: CalendarDate)
    requires
        d.wf(),
    ensures
        spec_succ(d) matches Some(n) ==> n.wf() && spec_pred(n) == Some(d),
        spec_succ(d) is None <==> (d.year == max_year() && d.month == 12 && d.day == 31),
{
}

} // verus!
