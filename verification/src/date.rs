//! Calendar dates in the proleptic Gregorian calendar, with the operations that
//! intervals are computed from.
use vstd::prelude::*;

use crate::arith::{div_euclid_i64, rem_euclid_i64};

verus! {

/// Whether `year` is a leap year of the proleptic Gregorian calendar.
pub open spec fn is_leap_year(year: int) -> bool {
    year % 4 == 0 && (year % 100 != 0 || year % 400 == 0)
}

/// The number of days in `month` (1 to 12) of `year`.
pub open spec fn days_in_month(year: int, month: int) -> int {
    if month == 2 {
        if is_leap_year(year) {
            29
        } else {
            28
        }
    } else if month == 4 || month == 6 || month == 9 || month == 11 {
        30
    } else {
        31
    }
}

/// The number of days of `year` that come before the first of `month`.
pub open spec fn days_before_month(year: int, month: int) -> int {
    let before: int = if month == 1 {
        0
    } else if month == 2 {
        31
    } else if month == 3 {
        59
    } else if month == 4 {
        90
    } else if month == 5 {
        120
    } else if month == 6 {
        151
    } else if month == 7 {
        181
    } else if month == 8 {
        212
    } else if month == 9 {
        243
    } else if month == 10 {
        273
    } else if month == 11 {
        304
    } else {
        334
    };
    if month > 2 && is_leap_year(year) {
        before + 1
    } else {
        before
    }
}

/// The number of days before the first of January of `year`, counted from 0001-01-01.
pub open spec fn days_before_year(year: int) -> int {
    let y = year - 1;
    365 * y + y / 4 - y / 100 + y / 400
}

/// The day number of a date, counted from 1970-01-01 (day 0).
pub open spec fn epoch_day_number(year: int, month: int, day: int) -> int {
    days_before_year(year) + days_before_month(year, month) + day - 719163
}

/// Whether `(year, month, day)` names a day of the calendar.
pub open spec fn is_valid_date(year: int, month: int, day: int) -> bool {
    1 <= month <= 12 && 1 <= day <= days_in_month(year, month)
}

/// The month count of a year and month: twelve per year, January of year 0 being 0.
pub open spec fn month_index(year: int, month: int) -> int {
    year * 12 + (month - 1)
}

/// The mathematical value of a [`Date`].
pub struct DateView {
    pub year: i16,
    pub month: u8,
    pub day: u8,
}

impl DateView {
    /// Whether this names a day of the calendar.
    pub open spec fn is_valid(self) -> bool {
        is_valid_date(self.year as int, self.month as int, self.day as int)
    }

    /// Whether this date comes on or before `other`.
    pub open spec fn on_or_before(self, other: DateView) -> bool {
        ||| self.year < other.year
        ||| self.year == other.year && self.month < other.month
        ||| self.year == other.year && self.month == other.month && self.day <= other.day
    }

    /// The day number of this date, counted from 1970-01-01.
    pub open spec fn epoch_days(self) -> int {
        epoch_day_number(self.year as int, self.month as int, self.day as int)
    }

    /// The month count of this date (see [`month_index`]).
    pub open spec fn month_index(self) -> int {
        month_index(self.year as int, self.month as int)
    }

    /// This date moved by `years` years; a 29th of February that lands in a common year
    /// becomes the 28th.
    pub open spec fn plus_years(self, years: int) -> DateView {
        let y = self.year + years;
        let dim = days_in_month(y, self.month as int);
        DateView {
            year: y as i16,
            month: self.month,
            day: if self.day > dim { dim as u8 } else { self.day },
        }
    }

    /// This date moved by `months` months; a day past the end of the month it lands in
    /// becomes the last day of that month.
    pub open spec fn plus_months(self, months: int) -> DateView {
        let idx = self.month_index() + months;
        let y = idx / 12;
        let m = idx % 12 + 1;
        let dim = days_in_month(y, m);
        DateView { year: y as i16, month: m as u8, day: if self.day > dim { dim as u8 } else { self.day } }
    }
}

/// A date of the proleptic Gregorian calendar.
#[derive(Clone, Copy, Debug, PartialEq, Eq, Structural, Hash)]
pub struct Date {
    year: i16,
    month: u8,
    day: u8,
}

impl View for Date {
    type V = DateView;

    closed spec fn view(&self) -> DateView {
        DateView { year: self.year, month: self.month, day: self.day }
    }
}

impl Date {
    /// Every date names a day of the calendar.
    #[verifier::type_invariant]
    pub open spec fn is_valid(self) -> bool {
        self@.is_valid()
    }

    /// Creates a date, or `None` where the month or the day does not exist.
    pub fn new(year: i16, month: u8, day: u8) -> (r: Option<Date>)
        ensures
            r is Some <==> is_valid_date(year as int, month as int, day as int),
            r matches Some(d) ==> d@ == (DateView { year, month, day }),
    {
        if 1 <= month && month <= 12 && 1 <= day && day <= days_in_month_exec(year, month) {
            Some(Date { year, month, day })
        } else {
            None
        }
    }

    /// The year of this date.
    pub fn year(&self) -> (r: i16)
        ensures
            r == self@.year,
    {
        self.year
    }

    /// The month of this date, from 1 to 12.
    pub fn month(&self) -> (r: u8)
        ensures
            r == self@.month,
            1 <= r <= 12,
    {
        proof {
            use_type_invariant(self);
        }
        self.month
    }

    /// The day of the month of this date.
    pub fn day(&self) -> (r: u8)
        ensures
            r == self@.day,
    {
        self.day
    }

    /// Whether this date comes on or before `other`.
    pub fn on_or_before(&self, other: &Date) -> (r: bool)
        ensures
            r == self@.on_or_before(other@),
    {
        self.year < other.year || (self.year == other.year && (self.month < other.month || (
        self.month == other.month && self.day <= other.day)))
    }

    /// The number of days from 1970-01-01 to this date.
    pub fn epoch_days(&self) -> (r: i32)
        ensures
            r == self@.epoch_days(),
            -13_000_000 <= r <= 12_000_000,
    {
        proof {
            use_type_invariant(self);
        }
        let y: i64 = self.year as i64 - 1;
        let leap_days: i64 = div_euclid_i64(y, 4) - div_euclid_i64(y, 100) + div_euclid_i64(y, 400);
        proof {
            lemma_leap_days_bounds(y as int);
        }
        let before_year: i64 = 365 * y + leap_days;
        let total: i64 = before_year + days_before_month_exec(self.year, self.month) as i64
            + self.day as i64 - 719163;
        total as i32
    }

    /// This date moved by `years` years. The 29th of February becomes the 28th where
    /// it lands in a common year.
    pub fn add_years(&self, years: i16) -> (r: Date)
        requires
            i16::MIN <= self@.year + years <= i16::MAX,
        ensures
            r@ == self@.plus_years(years as int),
    {
        proof {
            use_type_invariant(self);
        }
        let year: i16 = self.year + years;
        let dim = days_in_month_exec(year, self.month);
        let day = if self.day > dim {
            dim
        } else {
            self.day
        };
        Date { year, month: self.month, day }
    }

    /// This date moved by `months` months. A day past the end of the month it lands in
    /// becomes the last day of that month.
    pub fn add_months(&self, months: i32) -> (r: Date)
        requires
            i16::MIN <= (self@.month_index() + months) / 12 <= i16::MAX,
        ensures
            r@ == self@.plus_months(months as int),
    {
        proof {
            use_type_invariant(self);
        }
        let idx: i64 = self.year as i64 * 12 + (self.month as i64 - 1) + months as i64;
        let year = div_euclid_i64(idx, 12) as i16;
        let month = (rem_euclid_i64(idx, 12) + 1) as u8;
        let dim = days_in_month_exec(year, month);
        let day = if self.day > dim {
            dim
        } else {
            self.day
        };
        Date { year, month, day }
    }
}

/// Moving a date by whole months moves its month count by as much, onto a real month.
pub proof fn lemma_plus_months_index(d: DateView, months: int)
    requires
        i16::MIN <= (d.month_index() + months) / 12 <= i16::MAX,
    ensures
        d.plus_months(months).month_index() == d.month_index() + months,
        1 <= d.plus_months(months).month <= 12,
        d.plus_months(months).day <= d.day,
{
    let idx = d.month_index() + months;
    vstd::arithmetic::div_mod::lemma_fundamental_div_mod(idx, 12);
    vstd::arithmetic::div_mod::lemma_mod_bound(idx, 12);
}

/// Moving a date by whole years moves its year by as much and keeps its month.
pub proof fn lemma_plus_years_year(d: DateView, years: int)
    requires
        i16::MIN <= d.year + years <= i16::MAX,
    ensures
        d.plus_years(years).year == d.year + years,
        d.plus_years(years).month == d.month,
        d.plus_years(years).day <= d.day,
{
}

/// Moving a valid date by nothing leaves it as it is.
pub proof fn lemma_plus_nothing(d: DateView)
    requires
        d.is_valid(),
    ensures
        d.plus_years(0) == d,
        d.plus_months(0) == d,
{
    lemma_plus_months_index(d, 0);
    let idx = d.month_index();
    vstd::arithmetic::div_mod::lemma_fundamental_div_mod(idx, 12);
    vstd::arithmetic::div_mod::lemma_mod_bound(idx, 12);
}

/// The leap days before a year rise by one exactly after a leap year.
proof fn lemma_leap_day_step(y: int)
    ensures
        (y / 4 - y / 100 + y / 400) - ((y - 1) / 4 - (y - 1) / 100 + (y - 1) / 400) == if is_leap_year(
            y,
        ) {
            1int
        } else {
            0int
        },
{
    vstd::arithmetic::div_mod::lemma_fundamental_div_mod(y, 4);
    vstd::arithmetic::div_mod::lemma_fundamental_div_mod(y - 1, 4);
    vstd::arithmetic::div_mod::lemma_mod_bound(y, 4);
    vstd::arithmetic::div_mod::lemma_mod_bound(y - 1, 4);
    vstd::arithmetic::div_mod::lemma_fundamental_div_mod(y, 100);
    vstd::arithmetic::div_mod::lemma_fundamental_div_mod(y - 1, 100);
    vstd::arithmetic::div_mod::lemma_mod_bound(y, 100);
    vstd::arithmetic::div_mod::lemma_mod_bound(y - 1, 100);
    vstd::arithmetic::div_mod::lemma_fundamental_div_mod(y, 400);
    vstd::arithmetic::div_mod::lemma_fundamental_div_mod(y - 1, 400);
    vstd::arithmetic::div_mod::lemma_mod_bound(y, 400);
    vstd::arithmetic::div_mod::lemma_mod_bound(y - 1, 400);
}

/// A year holds 365 days, and one more in a leap year.
proof fn lemma_year_length(y: int)
    ensures
        days_before_year(y + 1) - days_before_year(y) == if is_leap_year(y) {
            366int
        } else {
            365int
        },
{
    lemma_leap_day_step(y);
}

/// Years further apart start at least 365 days per year apart.
proof fn lemma_days_before_year_grows(y1: int, y2: int)
    requires
        y1 <= y2,
    ensures
        days_before_year(y2) - days_before_year(y1) >= 365 * (y2 - y1),
    decreases y2 - y1,
{
    if y1 < y2 {
        lemma_days_before_year_grows(y1, y2 - 1);
        lemma_year_length(y2 - 1);
    }
}

/// The day of the year of a valid date lies between 1 and the length of its year.
proof fn lemma_day_of_year_bounds(d: DateView)
    requires
        d.is_valid(),
    ensures
        1 <= days_before_month(d.year as int, d.month as int) + d.day <= days_before_year(
            d.year + 1,
        ) - days_before_year(d.year as int),
{
    lemma_year_length(d.year as int);
}

/// Later dates have larger day numbers: the day number orders dates as the calendar
/// does.
pub proof fn lemma_epoch_days_monotone(a: DateView, b: DateView)
    requires
        a.is_valid(),
        b.is_valid(),
        a.on_or_before(b),
    ensures
        a.epoch_days() <= b.epoch_days(),
        a.epoch_days() == b.epoch_days() ==> a == b,
{
    lemma_day_of_year_bounds(a);
    lemma_day_of_year_bounds(b);
    if a.year < b.year {
        lemma_days_before_year_grows(a.year + 1, b.year as int);
    }
}

/// The number of leap days before a year lies within a known range.
proof fn lemma_leap_days_bounds(y: int)
    requires
        -40000 <= y <= 40000,
    ensures
        -20000 <= y / 4 - y / 100 + y / 400 <= 20000,
{
    crate::arith::lemma_div_euclid_bounds(y, 4);
    crate::arith::lemma_div_euclid_bounds(y, 100);
    crate::arith::lemma_div_euclid_bounds(y, 400);
}

fn is_leap_year_exec(year: i16) -> (r: bool)
    ensures
        r == is_leap_year(year as int),
{
    let y = year as i64;
    rem_euclid_i64(y, 4) == 0 && (rem_euclid_i64(y, 100) != 0 || rem_euclid_i64(y, 400) == 0)
}

fn days_in_month_exec(year: i16, month: u8) -> (r: u8)
    ensures
        r == days_in_month(year as int, month as int),
{
    if month == 2 {
        if is_leap_year_exec(year) {
            29
        } else {
            28
        }
    } else if month == 4 || month == 6 || month == 9 || month == 11 {
        30
    } else {
        31
    }
}

fn days_before_month_exec(year: i16, month: u8) -> (r: u16)
    ensures
        r == days_before_month(year as int, month as int),
{
    let before: u16 = if month == 1 {
        0
    } else if month == 2 {
        31
    } else if month == 3 {
        59
    } else if month == 4 {
        90
    } else if month == 5 {
        120
    } else if month == 6 {
        151
    } else if month == 7 {
        181
    } else if month == 8 {
        212
    } else if month == 9 {
        243
    } else if month == 10 {
        273
    } else if month == 11 {
        304
    } else {
        334
    };
    if month > 2 && is_leap_year_exec(year) {
        before + 1
    } else {
        before
    }
}

} // verus!
