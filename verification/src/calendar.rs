//! Calendar facts that the chart needs, taken from `chrono`.

use vstd::prelude::*;
use crate::model::Date;

verus! {

/// Whether `year` is a leap year of the proleptic Gregorian calendar.
pub open spec fn is_leap_year(year: int) -> bool {
    year % 4 == 0 && (year % 100 != 0 || year % 400 == 0)
}

/// The number of days of a month.
pub open spec fn days_in_month(year: int, month: int) -> int {
    if month == 2 {
        if is_leap_year(year) { 29 } else { 28 }
    } else if month == 4 || month == 6 || month == 9 || month == 11 {
        30
    } else {
        31
    }
}

/// Whether a year, month and day name a day that `chrono::NaiveDate` can
/// hold: a real day of the proleptic Gregorian calendar between January 1,
/// 262144 BCE (year -262143) and December 31, 262142 CE.
pub open spec fn calendar_date(year: i32, month: u32, day: u32) -> bool {
    &&& -262143 <= year <= 262142
    &&& 1 <= month <= 12
    &&& 1 <= day <= days_in_month(year as int, month as int)
}

impl Date {
    /// Whether this is a real calendar day in chrono's range.
    pub open spec fn is_real(self) -> bool {
        calendar_date(self.year, self.month, self.day)
    }
}

/// The ISO week-numbering year and week number (from 1) of a day, as
/// `chrono::NaiveDate::iso_week` gives them; `None` where
/// `chrono::NaiveDate::from_ymd_opt` finds no such day.
pub uninterp spec fn chrono_iso_week(year: i32, month: u32, day: u32) -> Option<(i32, u32)>;

/// Calls `chrono::NaiveDate::from_ymd_opt` and then `iso_week` on the day it
/// makes. The contract states what chrono's documentation gives: the day
/// exists exactly for real calendar days within chrono's range, and the week
/// number lies between 1 and 53. Which week a day falls in is named
/// `chrono_iso_week` and not stated.
#[verifier::external_body]
pub(crate) fn iso_week(year: i32, month: u32, day: u32) -> (r: Option<(i32, u32)>)
    ensures
        r == chrono_iso_week(year, month, day),
        r is Some <==> calendar_date(year, month, day),
        r matches Some(w) ==> 1 <= w.1 <= 53,
{
    match chrono::NaiveDate::from_ymd_opt(year, month, day) {
        Some(d) => {
            let w = chrono::Datelike::iso_week(&d);
            Some((w.year(), w.week()))
        },
        None => None,
    }
}

/// The days of the months of `year` before `month`.
pub open spec fn days_before_month(year: int, month: int) -> int
    decreases month,
{
    if month <= 1 {
        0
    } else {
        days_before_month(year, month - 1) + days_in_month(year, month - 1)
    }
}

/// The days from January 1 of year 1 to January 1 of `year` (negative for
/// earlier years), in the proleptic Gregorian calendar.
pub open spec fn days_before_year(year: int) -> int {
    let y = year - 1;
    365 * y + y / 4 - y / 100 + y / 400
}

/// The number of a day counting January 1, 1970 as day 0.
pub open spec fn epoch_number(d: Date) -> int {
    days_before_year(d.year as int) + days_before_month(d.year as int, d.month as int) + d.day - 1
        - 719162
}

/// The first and the last day that chrono's `NaiveDate` holds.
pub open spec fn first_chrono_day() -> Date {
    Date { year: -262143i32, month: 1u32, day: 1u32 }
}

pub open spec fn last_chrono_day() -> Date {
    Date { year: 262142i32, month: 12u32, day: 31u32 }
}

/// Calls `chrono::NaiveDate::from_epoch_days`. The contract states what
/// chrono's documentation gives: the day it makes is the day with that
/// number, counting January 1, 1970 as day 0, in the proleptic Gregorian
/// calendar (day 0 itself is 1970-01-01); there is one exactly when that day
/// lies within `NaiveDate`'s range, January 1, 262144 BCE to December 31,
/// 262142 CE.
#[verifier::external_body]
pub(crate) fn epoch_day(days: i32) -> (r: Option<Date>)
    ensures
        r matches Some(d) ==> d.is_real() && epoch_number(d) == days,
        r is Some <==> epoch_number(first_chrono_day()) <= days <= epoch_number(last_chrono_day()),
        days == 0 ==> r == Some(Date { year: 1970, month: 1, day: 1 }),
{
    chrono::NaiveDate::from_epoch_days(days).map(|d| Date {
        year: chrono::Datelike::year(&d),
        month: chrono::Datelike::month(&d),
        day: chrono::Datelike::day(&d),
    })
}

proof fn lemma_days_before_month_bounds(year: int, month: int)
    requires
        1 <= month <= 12,
    ensures
        0 <= days_before_month(year, month) <= 31 * (month - 1),
    decreases month,
{
    if month > 1 {
        lemma_days_before_month_bounds(year, month - 1);
    }
}

pub open spec fn year_length(year: int) -> int {
    if is_leap_year(year) { 366 } else { 365 }
}

proof fn lemma_floor_step_4(b: int)
    ensures
        b / 4 - (b - 1) / 4 == if b % 4 == 0 { 1int } else { 0int },
{
}

proof fn lemma_floor_step_100(b: int)
    ensures
        b / 100 - (b - 1) / 100 == if b % 100 == 0 { 1int } else { 0int },
{
}

proof fn lemma_floor_step_400(b: int)
    ensures
        b / 400 - (b - 1) / 400 == if b % 400 == 0 { 1int } else { 0int },
{
}

proof fn lemma_year_step(year: int)
    ensures
        days_before_year(year + 1) == days_before_year(year) + year_length(year),
{
    lemma_floor_step_4(year);
    lemma_floor_step_100(year);
    lemma_floor_step_400(year);
}

proof fn lemma_years_increase(y1: int, y2: int)
    requires
        y1 < y2,
    ensures
        days_before_year(y1 + 1) <= days_before_year(y2),
    decreases y2 - y1,
{
    if y1 + 1 < y2 {
        lemma_year_step(y2 - 1);
        lemma_years_increase(y1, y2 - 1);
    }
}

proof fn lemma_months_increase(year: int, m1: int, m2: int)
    requires
        1 <= m1 < m2 <= 13,
    ensures
        days_before_month(year, m1 + 1) <= days_before_month(year, m2),
    decreases m2 - m1,
{
    if m1 + 1 < m2 {
        lemma_months_increase(year, m1, m2 - 1);
    }
}

proof fn lemma_day_within_year(d: Date)
    requires
        d.is_real(),
    ensures
        days_before_year(d.year as int) <= epoch_number(d) + 719162,
        epoch_number(d) + 719162 < days_before_year(d.year + 1),
{
    let y = d.year as int;
    lemma_year_step(y);
    reveal_with_fuel(days_before_month, 13);
    if d.month < 12 {
        lemma_months_increase(y, d.month as int, 13);
    }
    lemma_days_before_month_bounds(y, d.month as int);
}

/// Day numbers follow the calendar: a day earlier in the year-month-day
/// order has a smaller number.
pub proof fn lemma_epoch_number_order(a: Date, b: Date)
    requires
        a.is_real(),
        b.is_real(),
        a.year < b.year || (a.year == b.year && a.month < b.month) || (a.year == b.year && a.month
            == b.month && a.day < b.day),
    ensures
        epoch_number(a) < epoch_number(b),
{
    lemma_day_within_year(a);
    lemma_day_within_year(b);
    if a.year < b.year {
        lemma_years_increase(a.year as int, b.year as int);
    } else if a.month < b.month {
        let y = a.year as int;
        lemma_months_increase(y, a.month as int, b.month as int);
        assert(days_before_month(y, a.month + 1) == days_before_month(y, a.month as int)
            + days_in_month(y, a.month as int));
    }
}

/// Each day number names one day: two real days with the same number are
/// the same day.
pub proof fn lemma_epoch_number_injective(d1: Date, d2: Date)
    requires
        d1.is_real(),
        d2.is_real(),
        epoch_number(d1) == epoch_number(d2),
    ensures
        d1 == d2,
{
    lemma_day_within_year(d1);
    lemma_day_within_year(d2);
    if d1.year < d2.year {
        lemma_years_increase(d1.year as int, d2.year as int);
    } else if d2.year < d1.year {
        lemma_years_increase(d2.year as int, d1.year as int);
    }
    let y = d1.year as int;
    if d1.month < d2.month {
        lemma_months_increase(y, d1.month as int, d2.month as int);
        assert(days_before_month(y, d1.month + 1) == days_before_month(y, d1.month as int)
            + days_in_month(y, d1.month as int));
    } else if d2.month < d1.month {
        lemma_months_increase(y, d2.month as int, d1.month as int);
        assert(days_before_month(y, d2.month + 1) == days_before_month(y, d2.month as int)
            + days_in_month(y, d2.month as int));
    }
}

/// chrono's range holds every day number from -96 million to 95 million,
/// and lies within `i32`.
pub proof fn lemma_chrono_range()
    ensures
        i32::MIN < epoch_number(first_chrono_day()) <= -96_000_000,
        95_000_000 <= epoch_number(last_chrono_day()) < i32::MAX,
{
    lemma_days_before_month_bounds(-262143, 1);
    reveal_with_fuel(days_before_month, 13);
    assert(days_before_year(-262143) == -95746130);
    assert(days_before_year(262142) == 95745034);
    assert(days_before_month(262142, 12) == 334);
}

/// Whole days in a count of seconds, rounded toward zero.
pub open spec fn whole_days(seconds: int) -> int {
    if seconds >= 0 {
        seconds / 86400
    } else {
        -((-seconds) / 86400)
    }
}

/// The day of a Unix timestamp (seconds since 1970-01-01), counting whole
/// days toward zero as the data sources do; `None` where the day falls
/// outside chrono's range.
pub fn date_of_timestamp(seconds: i64) -> (r: Option<Date>)
    ensures
        r matches Some(d) ==> d.is_real() && epoch_number(d) == whole_days(seconds as int),
        r is Some <==> epoch_number(first_chrono_day()) <= whole_days(seconds as int)
            <= epoch_number(last_chrono_day()),
{
    proof {
        lemma_chrono_range();
    }
    let days: i64 = if seconds >= 0 {
        seconds / 86400
    } else {
        let pos: u64 = if seconds == i64::MIN { 9223372036854775808u64 } else { (-seconds) as u64 };
        -((pos / 86400) as i64)
    };
    if i32::MIN as i64 <= days && days <= i32::MAX as i64 {
        epoch_day(days as i32)
    } else {
        None
    }
}

} // verus!
