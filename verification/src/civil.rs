use vstd::prelude::*;

use crate::datetime::{timestamp_in_range, SECONDS_PER_DAY, SECONDS_PER_HOUR, SECONDS_PER_MINUTE};

verus! {

/// A wall-clock reading in the proleptic Gregorian calendar: the calendar date, the day of the
/// week counted from Monday (0) to Sunday (6), and the time of day.
#[derive(Clone, Copy, Debug, PartialEq, Eq, Structural)]
pub struct CivilDateTime {
    pub year: i32,
    pub month: u8,
    pub day: u8,
    pub weekday: u8,
    pub hour: u8,
    pub minute: u8,
    pub second: u8,
}

pub open spec fn is_leap_year(year: int) -> bool {
    (year % 4 == 0 && year % 100 != 0) || year % 400 == 0
}

/// Number of days of a month (1..=12) of a year.
pub open spec fn days_in_month(year: int, month: int) -> int {
    if month == 2 {
        if is_leap_year(year) {
            29
        } else {
            28
        }
    } else if month == 4 || month == 6 || month == 9 || month == 11 {
        30
    } else {
        31
    }
}

/// Days of the year that lie before the first of `month`.
pub open spec fn days_before_month(year: int, month: int) -> int
    decreases month,
{
    if month <= 1 {
        0
    } else {
        days_before_month(year, month - 1) + days_in_month(year, month - 1)
    }
}

/// Leap years among the years before `year`, counted from a fixed origin.
pub open spec fn leap_years_before(year: int) -> int {
    (year - 1) / 4 - (year - 1) / 100 + (year - 1) / 400
}

/// Days from 1970-01-01 to the given date (negative before it).
pub open spec fn days_from_civil(year: int, month: int, day: int) -> int {
    365 * (year - 1970) + (leap_years_before(year) - leap_years_before(1970)) + days_before_month(year, month)
        + day - 1
}

/// A date and time of day that the `time` crate accepts: a year within -9999..=9999, a month
/// and a day of that month, and a time of day.
pub open spec fn valid_civil(year: int, month: int, day: int, hour: int, minute: int, second: int) -> bool {
    &&& -9999 <= year <= 9999
    &&& 1 <= month <= 12
    &&& 1 <= day <= days_in_month(year, month)
    &&& 0 <= hour < 24
    &&& 0 <= minute < 60
    &&& 0 <= second < 60
}

/// Seconds from 1970-01-01 00:00:00 to the given reading.
pub open spec fn civil_seconds(year: int, month: int, day: int, hour: int, minute: int, second: int) -> int {
    days_from_civil(year, month, day) * SECONDS_PER_DAY + hour * SECONDS_PER_HOUR + minute * SECONDS_PER_MINUTE
        + second
}

/// `c` is the wall-clock reading `seconds` after 1970-01-01 00:00:00 (a Thursday).
pub open spec fn civil_matches(c: CivilDateTime, seconds: int) -> bool {
    &&& valid_civil(c.year as int, c.month as int, c.day as int, c.hour as int, c.minute as int, c.second as int)
    &&& civil_seconds(c.year as int, c.month as int, c.day as int, c.hour as int, c.minute as int, c.second as int)
        == seconds
    &&& c.weekday == (days_from_civil(c.year as int, c.month as int, c.day as int) + 3) % 7
}

/// The year after `year` starts as many days later as `year` has.
proof fn lemma_year_step(year: int)
    ensures
        days_from_civil(year + 1, 1, 1) == days_from_civil(year, 1, 1) + 365 + (if is_leap_year(year) {
            1int
        } else {
            0int
        }),
{
    assert((year / 4 - (year - 1) / 4) == (if year % 4 == 0 { 1int } else { 0int }));
    assert((year / 100 - (year - 1) / 100) == (if year % 100 == 0 { 1int } else { 0int }));
    assert((year / 400 - (year - 1) / 400) == (if year % 400 == 0 { 1int } else { 0int }));
}

/// A later year starts no earlier than the day after the end of an earlier one.
proof fn lemma_year_start_monotone(y1: int, y2: int)
    requires
        y1 < y2,
    ensures
        days_from_civil(y1 + 1, 1, 1) <= days_from_civil(y2, 1, 1),
    decreases y2 - y1,
{
    if y1 + 1 < y2 {
        lemma_year_start_monotone(y1, y2 - 1);
        lemma_year_step(y2 - 1);
    }
}

/// Within a year, a later month starts after the end of an earlier one, and December ends
/// with the year.
proof fn lemma_months_in_year(year: int, m1: int, m2: int)
    requires
        1 <= m1 <= 12,
        m1 < m2 <= 13,
    ensures
        days_before_month(year, m1) + days_in_month(year, m1) <= days_before_month(year, m2),
        days_before_month(year, 13) == 365 + (if is_leap_year(year) { 1int } else { 0int }),
        days_before_month(year, m1) >= 0,
{
    reveal_with_fuel(days_before_month, 13);
}

/// A date of a year lies within that year.
proof fn lemma_date_in_year(year: int, month: int, day: int)
    requires
        1 <= month <= 12,
        1 <= day <= days_in_month(year, month),
    ensures
        days_from_civil(year, 1, 1) <= days_from_civil(year, month, day) < days_from_civil(year + 1, 1, 1),
{
    lemma_months_in_year(year, month, 13);
    lemma_year_step(year);
}

/// Distinct valid dates are distinct days.
proof fn lemma_days_from_civil_injective(y1: int, m1: int, d1: int, y2: int, m2: int, d2: int)
    requires
        1 <= m1 <= 12,
        1 <= d1 <= days_in_month(y1, m1),
        1 <= m2 <= 12,
        1 <= d2 <= days_in_month(y2, m2),
        days_from_civil(y1, m1, d1) == days_from_civil(y2, m2, d2),
    ensures
        y1 == y2 && m1 == m2 && d1 == d2,
{
    lemma_date_in_year(y1, m1, d1);
    lemma_date_in_year(y2, m2, d2);
    if y1 < y2 {
        lemma_year_start_monotone(y1, y2);
    } else if y2 < y1 {
        lemma_year_start_monotone(y2, y1);
    } else {
        if m1 < m2 {
            lemma_months_in_year(y1, m1, m2);
        } else if m2 < m1 {
            lemma_months_in_year(y1, m2, m1);
        }
    }
}

/// Two readings of the same instant are the same reading.
pub proof fn lemma_civil_unique(c1: CivilDateTime, c2: CivilDateTime, seconds: int)
    requires
        civil_matches(c1, seconds),
        civil_matches(c2, seconds),
    ensures
        c1 == c2,
{
    let d1 = days_from_civil(c1.year as int, c1.month as int, c1.day as int);
    let d2 = days_from_civil(c2.year as int, c2.month as int, c2.day as int);
    let t1 = c1.hour * 3600 + c1.minute * 60 + c1.second;
    let t2 = c2.hour * 3600 + c2.minute * 60 + c2.second;
    assert(d1 == d2 && t1 == t2) by (nonlinear_arith)
        requires
            d1 * 86400 + t1 == d2 * 86400 + t2,
            0 <= t1 < 86400,
            0 <= t2 < 86400,
    ;
    assert(c1.hour == c2.hour && c1.minute * 60 + c1.second == c2.minute * 60 + c2.second) by (nonlinear_arith)
        requires
            c1.hour * 3600 + (c1.minute * 60 + c1.second) == c2.hour * 3600 + (c2.minute * 60 + c2.second),
            0 <= c1.minute * 60 + c1.second < 3600,
            0 <= c2.minute * 60 + c2.second < 3600,
    ;
    lemma_days_from_civil_injective(
        c1.year as int,
        c1.month as int,
        c1.day as int,
        c2.year as int,
        c2.month as int,
        c2.day as int,
    );
}

/// The wall-clock reading `seconds` after 1970-01-01 00:00:00, where there is one (see
/// `lemma_civil_unique`).
pub open spec fn spec_civil_of(seconds: int) -> CivilDateTime {
    choose|c: CivilDateTime| civil_matches(c, seconds)
}

/// Some year between `lo` and `hi` holds the day `days` (counted from 1970-01-01).
proof fn lemma_find_year(days: int, lo: int, hi: int) -> (y: int)
    requires
        lo < hi,
        days_from_civil(lo, 1, 1) <= days < days_from_civil(hi, 1, 1),
    ensures
        lo <= y < hi,
        days_from_civil(y, 1, 1) <= days < days_from_civil(y + 1, 1, 1),
    decreases hi - lo,
{
    if days < days_from_civil(lo + 1, 1, 1) {
        lo
    } else {
        lemma_find_year(days, lo + 1, hi)
    }
}

/// Some month of a year, from `m` on, holds the day `offset` of that year.
proof fn lemma_find_month(year: int, offset: int, m: int) -> (month: int)
    requires
        1 <= m <= 12,
        days_before_month(year, m) <= offset < days_before_month(year, 13),
    ensures
        m <= month <= 12,
        days_before_month(year, month) <= offset < days_before_month(year, month) + days_in_month(year, month),
    decreases 12 - m,
{
    if offset < days_before_month(year, m) + days_in_month(year, m) || m == 12 {
        lemma_months_in_year(year, m, 13);
        m
    } else {
        lemma_find_month(year, offset, m + 1)
    }
}

/// Every instant within the years -9999..=9999 has a wall-clock reading.
pub proof fn lemma_civil_exists(seconds: int)
    requires
        timestamp_in_range(seconds),
    ensures
        civil_matches(spec_civil_of(seconds), seconds),
{
    let days = seconds / SECONDS_PER_DAY as int;
    let tod = seconds % SECONDS_PER_DAY as int;
    assert(days_from_civil(-9999, 1, 1) * 86400 == -377705116800);
    assert(days_from_civil(10000, 1, 1) == 2932897);
    let y = lemma_find_year(days, -9999, 10000);
    lemma_year_step(y);
    lemma_months_in_year(y, 1, 13);
    let offset = days - days_from_civil(y, 1, 1);
    assert(days_before_month(y, 1) == 0);
    let m = lemma_find_month(y, offset, 1);
    let d = offset - days_before_month(y, m) + 1;
    let c = CivilDateTime {
        year: y as i32,
        month: m as u8,
        day: d as u8,
        weekday: ((days + 3) % 7) as u8,
        hour: (tod / 3600) as u8,
        minute: ((tod % 3600) / 60) as u8,
        second: (tod % 60) as u8,
    };
    assert(days_from_civil(y, m, d) == days);
    assert(tod == (tod / 3600) * 3600 + ((tod % 3600) / 60) * 60 + tod % 60);
    assert(civil_matches(c, seconds));
}

/// `time::OffsetDateTime::from_unix_timestamp` and the calendar fields of the result: the
/// proleptic Gregorian reading of the timestamp in UTC, with the weekday numbered from Monday.
#[verifier::external_body]
pub(crate) fn civil_from_timestamp(timestamp: i64) -> (r: CivilDateTime)
    requires
        timestamp_in_range(timestamp as int),
    ensures
        civil_matches(r, timestamp as int),
{
    let dt = time::OffsetDateTime::from_unix_timestamp(timestamp).unwrap();
    CivilDateTime {
        year: dt.year(),
        month: u8::from(dt.month()),
        day: dt.day(),
        weekday: dt.weekday().number_days_from_monday(),
        hour: dt.hour(),
        minute: dt.minute(),
        second: dt.second(),
    }
}

/// `time::Month::try_from`, `time::Date::from_calendar_date` and `with_hms`, read as UTC with
/// `assume_utc().unix_timestamp()`: the timestamp of a reading, or `None` when the month, the
/// day, the time of day or the year lies outside what the `time` crate accepts.
#[verifier::external_body]
pub(crate) fn civil_to_timestamp(year: i32, month: u8, day: u8, hour: u8, minute: u8, second: u8) -> (r:
    Option<i64>)
    ensures
        r == (if valid_civil(year as int, month as int, day as int, hour as int, minute as int, second as int) {
            Some(civil_seconds(year as int, month as int, day as int, hour as int, minute as int, second as int) as i64)
        } else {
            None::<i64>
        }),
{
    let month = time::Month::try_from(month).ok()?;
    let date = time::Date::from_calendar_date(year, month, day).ok()?;
    Some(date.with_hms(hour, minute, second).ok()?.assume_utc().unix_timestamp())
}

} // verus!
