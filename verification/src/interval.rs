//! Intervals of time such as 2 years or 30 minutes, kept unit by unit.
use vstd::prelude::*;

use crate::arith::{
    clamp_i64, div_euclid_i64, divrem_i64, rem_euclid_i64, saturating_mul_i64, trunc_div,
    trunc_rem,
};
use crate::date::{Date, DateView};
use crate::duration::{
    duration_as_secs, duration_nanos_of, duration_new, duration_secs_of, duration_subsec_nanos,
};
use crate::offset::UtcOffset;
use crate::time::{Time, NANOS_PER_HOUR, NANOS_PER_MIN, NANOS_PER_SEC};

use std::time::Duration;

verus! {

/// The mathematical value of an [`Interval`]: its eight components.
pub struct IntervalView {
    pub years: i16,
    pub days: i32,
    pub weeks: i32,
    pub months: i32,
    pub hours: i32,
    pub minutes: i64,
    pub seconds: i64,
    pub nanoseconds: i64,
}

/// Whether `x` fits an `i16`.
pub open spec fn fits_i16(x: int) -> bool {
    i16::MIN <= x <= i16::MAX
}

/// Whether `x` fits an `i32`.
pub open spec fn fits_i32(x: int) -> bool {
    i32::MIN <= x <= i32::MAX
}

/// Whether `x` fits an `i64`.
pub open spec fn fits_i64(x: int) -> bool {
    i64::MIN <= x <= i64::MAX
}

/// Whether a component of magnitude `x` is carried into the next unit, whose size is `k`.
pub open spec fn carries(x: int, k: int) -> bool {
    x >= k || x <= -k
}

/// The interval between two times of day `d` nanoseconds apart: hours, minutes, seconds
/// and nanoseconds, each cut toward zero, so that each carries the sign of `d`.
pub open spec fn clock_between(d: int) -> IntervalView {
    let h = trunc_div(d, NANOS_PER_HOUR as int);
    let r1 = trunc_rem(d, NANOS_PER_HOUR as int);
    let m = trunc_div(r1, NANOS_PER_MIN as int);
    let r2 = trunc_rem(r1, NANOS_PER_MIN as int);
    IntervalView {
        hours: h as i32,
        minutes: m as i64,
        seconds: trunc_div(r2, NANOS_PER_SEC as int) as i64,
        nanoseconds: trunc_rem(r2, NANOS_PER_SEC as int) as i64,
        ..IntervalView::zero()
    }
}

/// The whole years from `start` to `end`: the year difference, less one (or, going
/// backward, plus one) where moving `start` by that many years overshoots `end`.
pub open spec fn years_between_spec(start: DateView, end: DateView) -> int {
    let diff = end.year - start.year;
    let location = start.plus_years(diff);
    if start.on_or_before(end) {
        if location.on_or_before(end) {
            diff
        } else {
            diff - 1
        }
    } else {
        if end.on_or_before(location) {
            diff
        } else {
            diff + 1
        }
    }
}

/// The whole months from `start` to `end`, as [`years_between_spec`] counts years.
pub open spec fn months_between_spec(start: DateView, end: DateView) -> int {
    let diff = end.month_index() - start.month_index();
    let location = start.plus_months(diff);
    if start.on_or_before(end) {
        if location.on_or_before(end) {
            diff
        } else {
            diff - 1
        }
    } else {
        if end.on_or_before(location) {
            diff
        } else {
            diff + 1
        }
    }
}

/// The interval from `start` to `end`, as [`Interval::between_dates`] counts it: whole
/// years, then whole months from there, then the days that are left.
pub open spec fn dates_between(start: DateView, end: DateView) -> IntervalView {
    if start == end {
        IntervalView::zero()
    } else {
        let years = years_between_spec(start, end);
        let after_years = start.plus_years(years);
        let months = months_between_spec(after_years, end);
        let after_months = after_years.plus_months(months);
        IntervalView {
            years: years as i16,
            months: months as i32,
            days: (end.epoch_days() - after_months.epoch_days()) as i32,
            ..IntervalView::zero()
        }
    }
}

/// The interval that a duration converts to: its whole seconds (taken as `as i64` takes
/// them) and its subsecond nanoseconds.
pub open spec fn duration_interval(d: Duration) -> IntervalView {
    IntervalView {
        seconds: duration_secs_of(d) as i64,
        nanoseconds: duration_nanos_of(d) as i64,
        ..IntervalView::zero()
    }
}

impl IntervalView {
    /// The interval with every component zero.
    pub open spec fn zero() -> IntervalView {
        IntervalView {
            years: 0,
            days: 0,
            weeks: 0,
            months: 0,
            hours: 0,
            minutes: 0,
            seconds: 0,
            nanoseconds: 0,
        }
    }

    /// The calendar part of the interval counted in months.
    pub open spec fn total_months(self) -> int {
        self.months + self.years * 12
    }

    /// The calendar part of the interval counted in days.
    pub open spec fn total_days(self) -> int {
        self.weeks * 7 + self.days
    }

    /// The clock part of the interval (hours down to nanoseconds) counted in nanoseconds.
    pub open spec fn clock_nanos(self) -> int {
        ((self.hours * 60 + self.minutes) * 60 + self.seconds) * NANOS_PER_SEC + self.nanoseconds
    }

    /// Days, weeks and the clock part together, counted in nanoseconds.
    pub open spec fn total_nanos(self) -> int {
        self.total_days() * 24 * NANOS_PER_HOUR + self.clock_nanos()
    }

    /// Whether each component of `self + other` fits its type.
    pub open spec fn add_fits(self, other: IntervalView) -> bool {
        &&& fits_i16(self.years + other.years)
        &&& fits_i32(self.days + other.days)
        &&& fits_i32(self.weeks + other.weeks)
        &&& fits_i32(self.months + other.months)
        &&& fits_i32(self.hours + other.hours)
        &&& fits_i64(self.minutes + other.minutes)
        &&& fits_i64(self.seconds + other.seconds)
        &&& fits_i64(self.nanoseconds + other.nanoseconds)
    }

    /// Component-wise sum.
    pub open spec fn plus(self, other: IntervalView) -> IntervalView {
        IntervalView {
            years: (self.years + other.years) as i16,
            days: (self.days + other.days) as i32,
            weeks: (self.weeks + other.weeks) as i32,
            months: (self.months + other.months) as i32,
            hours: (self.hours + other.hours) as i32,
            minutes: (self.minutes + other.minutes) as i64,
            seconds: (self.seconds + other.seconds) as i64,
            nanoseconds: (self.nanoseconds + other.nanoseconds) as i64,
        }
    }

    /// Whether each component of `self - other` fits its type.
    pub open spec fn sub_fits(self, other: IntervalView) -> bool {
        &&& fits_i16(self.years - other.years)
        &&& fits_i32(self.days - other.days)
        &&& fits_i32(self.weeks - other.weeks)
        &&& fits_i32(self.months - other.months)
        &&& fits_i32(self.hours - other.hours)
        &&& fits_i64(self.minutes - other.minutes)
        &&& fits_i64(self.seconds - other.seconds)
        &&& fits_i64(self.nanoseconds - other.nanoseconds)
    }

    /// Component-wise difference.
    pub open spec fn minus(self, other: IntervalView) -> IntervalView {
        IntervalView {
            years: (self.years - other.years) as i16,
            days: (self.days - other.days) as i32,
            weeks: (self.weeks - other.weeks) as i32,
            months: (self.months - other.months) as i32,
            hours: (self.hours - other.hours) as i32,
            minutes: (self.minutes - other.minutes) as i64,
            seconds: (self.seconds - other.seconds) as i64,
            nanoseconds: (self.nanoseconds - other.nanoseconds) as i64,
        }
    }

    /// Whether every component can be negated: none is the minimum of its type.
    pub open spec fn neg_fits(self) -> bool {
        &&& self.years != i16::MIN
        &&& self.days != i32::MIN
        &&& self.weeks != i32::MIN
        &&& self.months != i32::MIN
        &&& self.hours != i32::MIN
        &&& self.minutes != i64::MIN
        &&& self.seconds != i64::MIN
        &&& self.nanoseconds != i64::MIN
    }

    /// Component-wise negation.
    pub open spec fn negated(self) -> IntervalView {
        IntervalView {
            years: (-self.years) as i16,
            days: (-self.days) as i32,
            weeks: (-self.weeks) as i32,
            months: (-self.months) as i32,
            hours: (-self.hours) as i32,
            minutes: (-self.minutes) as i64,
            seconds: (-self.seconds) as i64,
            nanoseconds: (-self.nanoseconds) as i64,
        }
    }
    /// The whole seconds of the clock part: hours, minutes and seconds, and the whole
    /// seconds of the nanoseconds (cut toward zero).
    pub open spec fn clock_seconds(self) -> int {
        self.hours * 3600 + self.minutes * 60 + self.seconds + trunc_div(
            self.nanoseconds as int,
            1_000_000_000,
        )
    }

    /// The nanoseconds left over from `clock_seconds`; they carry the sign of the
    /// nanoseconds component.
    pub open spec fn clock_subsec_nanos(self) -> int {
        trunc_rem(self.nanoseconds as int, 1_000_000_000)
    }

    /// Whether the clock part can be taken as a duration: its whole seconds are counted
    /// in an `i64` without overflow and can be negated.
    pub open spec fn time_duration_fits(self) -> bool {
        &&& fits_i64(self.minutes * 60)
        &&& fits_i64(self.hours * 3600 + self.minutes * 60)
        &&& fits_i64(self.hours * 3600 + self.minutes * 60 + self.seconds)
        &&& fits_i64(self.clock_seconds())
        &&& self.clock_seconds() != i64::MIN
    }

    /// First step of normalisation: whole seconds move out of the nanoseconds.
    pub open spec fn carry_nanos(self) -> IntervalView {
        if carries(self.nanoseconds as int, 1_000_000_000) {
            IntervalView {
                seconds: (self.seconds + self.nanoseconds / 1_000_000_000) as i64,
                nanoseconds: (self.nanoseconds % 1_000_000_000) as i64,
                ..self
            }
        } else {
            self
        }
    }

    /// Second step: whole minutes move out of the seconds.
    pub open spec fn carry_seconds(self) -> IntervalView {
        if carries(self.seconds as int, 60) {
            IntervalView {
                minutes: (self.minutes + self.seconds / 60) as i64,
                seconds: (self.seconds % 60) as i64,
                ..self
            }
        } else {
            self
        }
    }

    /// Third step: whole hours move out of the minutes. The count of hours is cut to
    /// an `i32` (as `as i32` does) before it is added.
    pub open spec fn carry_minutes(self) -> IntervalView {
        if carries(self.minutes as int, 60) {
            IntervalView {
                hours: (self.hours + ((self.minutes / 60) as i32)) as i32,
                minutes: (self.minutes % 60) as i64,
                ..self
            }
        } else {
            self
        }
    }

    /// Fourth step: whole days move out of the hours.
    pub open spec fn carry_hours(self) -> IntervalView {
        if carries(self.hours as int, 24) {
            IntervalView {
                days: (self.days + self.hours / 24) as i32,
                hours: (self.hours % 24) as i32,
                ..self
            }
        } else {
            self
        }
    }

    /// Fifth step: whole weeks move out of the days.
    pub open spec fn carry_days(self) -> IntervalView {
        if carries(self.days as int, 7) {
            IntervalView {
                weeks: (self.weeks + self.days / 7) as i32,
                days: (self.days % 7) as i32,
                ..self
            }
        } else {
            self
        }
    }

    /// Last step: whole years move out of the months. The count of years is cut to an
    /// `i16` (as `as i16` does) before it is added.
    pub open spec fn carry_months(self) -> IntervalView {
        if carries(self.months as int, 12) {
            IntervalView {
                years: (self.years + ((self.months / 12) as i16)) as i16,
                months: (self.months % 12) as i32,
                ..self
            }
        } else {
            self
        }
    }

    /// The interval after normalisation: the six carries, smallest unit first.
    pub open spec fn normalized(self) -> IntervalView {
        self.carry_nanos().carry_seconds().carry_minutes().carry_hours().carry_days().carry_months()
    }

    /// Whether normalisation runs without overflow: no component whose magnitude is
    /// taken is the minimum of its type, and no carry overflows the unit it goes into.
    pub open spec fn normalize_fits(self) -> bool {
        let v1 = self.carry_nanos();
        let v2 = v1.carry_seconds();
        let v3 = v2.carry_minutes();
        let v4 = v3.carry_hours();
        let v5 = v4.carry_days();
        &&& self.nanoseconds != i64::MIN
        &&& carries(self.nanoseconds as int, 1_000_000_000) ==> fits_i64(
            self.seconds + self.nanoseconds / 1_000_000_000,
        )
        &&& v1.seconds != i64::MIN
        &&& carries(v1.seconds as int, 60) ==> fits_i64(v1.minutes + v1.seconds / 60)
        &&& v2.minutes != i64::MIN
        &&& carries(v2.minutes as int, 60) ==> fits_i32(v2.hours + ((v2.minutes / 60) as i32))
        &&& v3.hours != i32::MIN
        &&& carries(v3.hours as int, 24) ==> fits_i32(v3.days + v3.hours / 24)
        &&& v4.days != i32::MIN
        &&& carries(v4.days as int, 7) ==> fits_i32(v4.weeks + v4.days / 7)
        &&& v5.months != i32::MIN
        &&& carries(v5.months as int, 12) ==> fits_i16(v5.years + ((v5.months / 12) as i16))
    }

    /// Whether the two carries that cut their count to a narrower type (minutes into
    /// hours, months into years) cut nothing off.
    pub open spec fn normalize_exact(self) -> bool {
        let v2 = self.carry_nanos().carry_seconds();
        &&& fits_i32(v2.minutes / 60)
        &&& fits_i16(self.months / 12)
    }

    /// Whether every component is below the size of the next unit up in magnitude.
    pub open spec fn is_normal(self) -> bool {
        &&& !carries(self.nanoseconds as int, 1_000_000_000)
        &&& !carries(self.seconds as int, 60)
        &&& !carries(self.minutes as int, 60)
        &&& !carries(self.hours as int, 24)
        &&& !carries(self.days as int, 7)
        &&& !carries(self.months as int, 12)
    }
}

/// Represents a interval of time such as 2 years, 30 minutes, etc.
///
/// Each unit is kept on its own: 90 minutes stays 90 minutes until
/// [`Interval::normalize`] carries it into hours.
#[derive(Debug, Clone, Copy, PartialEq, Eq, Structural, PartialOrd, Ord, Hash)]
pub struct Interval {
    years: i16,
    days: i32,
    weeks: i32,
    months: i32,
    hours: i32,
    minutes: i64,
    seconds: i64,
    nanoseconds: i64,
}

impl View for Interval {
    type V = IntervalView;

    closed spec fn view(&self) -> IntervalView {
        IntervalView {
            years: self.years,
            days: self.days,
            weeks: self.weeks,
            months: self.months,
            hours: self.hours,
            minutes: self.minutes,
            seconds: self.seconds,
            nanoseconds: self.nanoseconds,
        }
    }
}

impl Default for Interval {
    fn default() -> (r: Interval)
        ensures
            r@ == IntervalView::zero(),
    {
        Interval::zero()
    }
}

impl Interval {
    /// A interval that contains only zero values.
    pub fn zero() -> (r: Interval)
        ensures
            r@ == IntervalView::zero(),
    {
        Interval {
            years: 0,
            days: 0,
            weeks: 0,
            months: 0,
            hours: 0,
            minutes: 0,
            seconds: 0,
            nanoseconds: 0,
        }
    }

    /// Creates a [`Interval`] representing the specified number of years.
    pub fn from_years(years: i16) -> (r: Interval)
        ensures
            r@ == (IntervalView { years, ..IntervalView::zero() }),
    {
        Interval { years, ..Interval::zero() }
    }

    /// Creates a [`Interval`] representing the specified number of days.
    pub fn from_days(days: i32) -> (r: Interval)
        ensures
            r@ == (IntervalView { days, ..IntervalView::zero() }),
    {
        Interval { days, ..Interval::zero() }
    }

    /// Creates a [`Interval`] representing the specified number of months.
    pub fn from_months(months: i32) -> (r: Interval)
        ensures
            r@ == (IntervalView { months, ..IntervalView::zero() }),
    {
        Interval { months, ..Interval::zero() }
    }

    /// Creates a [`Interval`] representing the specified number of weeks.
    pub fn from_weeks(weeks: i32) -> (r: Interval)
        ensures
            r@ == (IntervalView { weeks, ..IntervalView::zero() }),
    {
        Interval { weeks, ..Interval::zero() }
    }

    /// Creates a [`Interval`] representing the specified number of hours.
    pub fn from_hours(hours: i32) -> (r: Interval)
        ensures
            r@ == (IntervalView { hours, ..IntervalView::zero() }),
    {
        Interval { hours, ..Interval::zero() }
    }

    /// Creates a [`Interval`] representing the specified number of minutes.
    pub fn from_minutes(minutes: i64) -> (r: Interval)
        ensures
            r@ == (IntervalView { minutes, ..IntervalView::zero() }),
    {
        Interval { minutes, ..Interval::zero() }
    }

    /// Creates a [`Interval`] representing the specified number of seconds.
    pub fn from_seconds(seconds: i64) -> (r: Interval)
        ensures
            r@ == (IntervalView { seconds, ..IntervalView::zero() }),
    {
        Interval { seconds, ..Interval::zero() }
    }

    /// Creates a [`Interval`] representing the specified number of milliseconds.
    ///
    /// Note that the internal structure only stores nanoseconds. If the computation
    /// would end up overflowing then the value is saturated to the upper bounds.
    pub fn from_milliseconds(milliseconds: i64) -> (r: Interval)
        ensures
            r@ == (IntervalView {
                nanoseconds: clamp_i64(milliseconds * 1_000_000) as i64,
                ..IntervalView::zero()
            }),
            fits_i64(milliseconds * 1_000_000) ==> r@.nanoseconds == milliseconds * 1_000_000,
            milliseconds * 1_000_000 > i64::MAX ==> r@.nanoseconds == i64::MAX,
            milliseconds * 1_000_000 < i64::MIN ==> r@.nanoseconds == i64::MIN,
    {
        Interval { nanoseconds: saturating_mul_i64(milliseconds, 1_000_000), ..Interval::zero() }
    }

    /// Creates a [`Interval`] representing the specified number of microseconds.
    ///
    /// Note that the internal structure only stores nanoseconds. If the computation
    /// would end up overflowing then the value is saturated to the upper bounds.
    pub fn from_microseconds(microseconds: i64) -> (r: Interval)
        ensures
            r@ == (IntervalView {
                nanoseconds: clamp_i64(microseconds * 1_000) as i64,
                ..IntervalView::zero()
            }),
            fits_i64(microseconds * 1_000) ==> r@.nanoseconds == microseconds * 1_000,
            microseconds * 1_000 > i64::MAX ==> r@.nanoseconds == i64::MAX,
            microseconds * 1_000 < i64::MIN ==> r@.nanoseconds == i64::MIN,
    {
        Interval { nanoseconds: saturating_mul_i64(microseconds, 1_000), ..Interval::zero() }
    }

    /// Creates a [`Interval`] representing the specified number of nanoseconds.
    pub fn from_nanoseconds(nanoseconds: i64) -> (r: Interval)
        ensures
            r@ == (IntervalView { nanoseconds, ..IntervalView::zero() }),
    {
        Interval { nanoseconds, ..Interval::zero() }
    }

    /// Creates an [`Interval`] of the given whole seconds and nanoseconds: the parts of a
    /// [`Duration`]. The seconds are taken as an `i64` as `as i64` takes them, which wraps
    /// seconds beyond `i64::MAX` round to negative values.
    pub fn from_duration_parts(secs: u64, subsec_nanos: u32) -> (r: Interval)
        ensures
            r@ == (IntervalView {
                seconds: secs as i64,
                nanoseconds: subsec_nanos as i64,
                ..IntervalView::zero()
            }),
    {
        Interval { seconds: secs as i64, nanoseconds: subsec_nanos as i64, ..Interval::zero() }
    }

    /// Returns the number of years within this interval.
    pub fn years(&self) -> (r: i16)
        ensures
            r == self@.years,
    {
        self.years
    }

    /// Returns the number of days within this interval.
    pub fn days(&self) -> (r: i32)
        ensures
            r == self@.days,
    {
        self.days
    }

    /// Returns the number of months within this interval.
    pub fn months(&self) -> (r: i32)
        ensures
            r == self@.months,
    {
        self.months
    }

    /// Returns the number of weeks within this interval.
    pub fn weeks(&self) -> (r: i32)
        ensures
            r == self@.weeks,
    {
        self.weeks
    }

    /// Returns the number of hours within this interval.
    pub fn hours(&self) -> (r: i32)
        ensures
            r == self@.hours,
    {
        self.hours
    }

    /// Returns the number of minutes within this interval.
    pub fn minutes(&self) -> (r: i64)
        ensures
            r == self@.minutes,
    {
        self.minutes
    }

    /// Returns the number of seconds within this interval.
    pub fn seconds(&self) -> (r: i64)
        ensures
            r == self@.seconds,
    {
        self.seconds
    }

    /// Returns the number of milliseconds within this interval: the nanoseconds
    /// divided by a million, rounded toward zero.
    pub fn milliseconds(&self) -> (r: i64)
        ensures
            r == trunc_div(self@.nanoseconds as int, 1_000_000),
    {
        divrem_i64(self.nanoseconds, 1_000_000).0
    }

    /// Returns the number of microseconds within this interval: the nanoseconds
    /// divided by a thousand, rounded toward zero.
    pub fn microseconds(&self) -> (r: i64)
        ensures
            r == trunc_div(self@.nanoseconds as int, 1_000),
    {
        divrem_i64(self.nanoseconds, 1_000).0
    }

    /// Returns the number of nanoseconds within this interval.
    pub fn nanoseconds(&self) -> (r: i64)
        ensures
            r == self@.nanoseconds,
    {
        self.nanoseconds
    }

    /// Returns a new [`Interval`] with the given number of years.
    pub fn with_years(self, years: i16) -> (r: Interval)
        ensures
            r@ == (IntervalView { years, ..self@ }),
    {
        Interval { years, ..self }
    }

    /// Returns a new [`Interval`] with the given number of days.
    pub fn with_days(self, days: i32) -> (r: Interval)
        ensures
            r@ == (IntervalView { days, ..self@ }),
    {
        Interval { days, ..self }
    }

    /// Returns a new [`Interval`] with the given number of weeks.
    pub fn with_weeks(self, weeks: i32) -> (r: Interval)
        ensures
            r@ == (IntervalView { weeks, ..self@ }),
    {
        Interval { weeks, ..self }
    }

    /// Returns a new [`Interval`] with the given number of months.
    pub fn with_months(self, months: i32) -> (r: Interval)
        ensures
            r@ == (IntervalView { months, ..self@ }),
    {
        Interval { months, ..self }
    }

    /// Returns a new [`Interval`] with the given number of hours.
    pub fn with_hours(self, hours: i32) -> (r: Interval)
        ensures
            r@ == (IntervalView { hours, ..self@ }),
    {
        Interval { hours, ..self }
    }

    /// Returns a new [`Interval`] with the given number of minutes.
    pub fn with_minutes(self, minutes: i64) -> (r: Interval)
        ensures
            r@ == (IntervalView { minutes, ..self@ }),
    {
        Interval { minutes, ..self }
    }

    /// Returns a new [`Interval`] with the given number of seconds.
    pub fn with_seconds(self, seconds: i64) -> (r: Interval)
        ensures
            r@ == (IntervalView { seconds, ..self@ }),
    {
        Interval { seconds, ..self }
    }

    /// Returns a new [`Interval`] with the given number of milliseconds.
    ///
    /// Note that the internal structure only stores nanoseconds. If the computation
    /// would end up overflowing then the value is saturated to the upper bounds. If
    /// nanoseconds are already set then this would remove the previous value.
    pub fn with_milliseconds(self, milliseconds: i64) -> (r: Interval)
        ensures
            r@ == (IntervalView { nanoseconds: clamp_i64(milliseconds * 1_000_000) as i64, ..self@ }),
            fits_i64(milliseconds * 1_000_000) ==> r@.nanoseconds == milliseconds * 1_000_000,
            milliseconds * 1_000_000 > i64::MAX ==> r@.nanoseconds == i64::MAX,
            milliseconds * 1_000_000 < i64::MIN ==> r@.nanoseconds == i64::MIN,
    {
        Interval { nanoseconds: saturating_mul_i64(milliseconds, 1_000_000), ..self }
    }

    /// Returns a new [`Interval`] with the given number of microseconds.
    ///
    /// Note that the internal structure only stores nanoseconds. If the computation
    /// would end up overflowing then the value is saturated to the upper bounds. If
    /// nanoseconds are already set then this would remove the previous value.
    pub fn with_microseconds(self, microseconds: i64) -> (r: Interval)
        ensures
            r@ == (IntervalView { nanoseconds: clamp_i64(microseconds * 1_000) as i64, ..self@ }),
            fits_i64(microseconds * 1_000) ==> r@.nanoseconds == microseconds * 1_000,
            microseconds * 1_000 > i64::MAX ==> r@.nanoseconds == i64::MAX,
            microseconds * 1_000 < i64::MIN ==> r@.nanoseconds == i64::MIN,
    {
        Interval { nanoseconds: saturating_mul_i64(microseconds, 1_000), ..self }
    }

    /// Returns a new [`Interval`] with the given number of nanoseconds.
    pub fn with_nanoseconds(self, nanoseconds: i64) -> (r: Interval)
        ensures
            r@ == (IntervalView { nanoseconds, ..self@ }),
    {
        Interval { nanoseconds, ..self }
    }

    /// The days and weeks of this interval counted in days.
    pub fn total_days(&self) -> (r: i32)
        requires
            fits_i32(self@.weeks * 7),
            fits_i32(self@.total_days()),
        ensures
            r == self@.total_days(),
    {
        self.weeks * 7 + self.days
    }

    /// The months and years of this interval counted in months.
    pub fn total_months(&self) -> (r: i32)
        requires
            fits_i32(self@.total_months()),
        ensures
            r == self@.total_months(),
    {
        self.months + self.years as i32 * 12
    }

    /// Component-wise sum of two intervals.
    pub fn add(self, rhs: Interval) -> (r: Interval)
        requires
            self@.add_fits(rhs@),
        ensures
            r@ == self@.plus(rhs@),
    {
        Interval {
            years: self.years + rhs.years,
            days: self.days + rhs.days,
            weeks: self.weeks + rhs.weeks,
            months: self.months + rhs.months,
            hours: self.hours + rhs.hours,
            minutes: self.minutes + rhs.minutes,
            seconds: self.seconds + rhs.seconds,
            nanoseconds: self.nanoseconds + rhs.nanoseconds,
        }
    }

    /// Adds `rhs` to this interval, component by component.
    pub fn add_assign(&mut self, rhs: Interval)
        requires
            old(self)@.add_fits(rhs@),
        ensures
            final(self)@ == old(self)@.plus(rhs@),
    {
        self.years = self.years + rhs.years;
        self.days = self.days + rhs.days;
        self.weeks = self.weeks + rhs.weeks;
        self.months = self.months + rhs.months;
        self.hours = self.hours + rhs.hours;
        self.minutes = self.minutes + rhs.minutes;
        self.seconds = self.seconds + rhs.seconds;
        self.nanoseconds = self.nanoseconds + rhs.nanoseconds;
    }

    /// Component-wise difference of two intervals.
    pub fn sub(self, rhs: Interval) -> (r: Interval)
        requires
            self@.sub_fits(rhs@),
        ensures
            r@ == self@.minus(rhs@),
    {
        Interval {
            years: self.years - rhs.years,
            days: self.days - rhs.days,
            weeks: self.weeks - rhs.weeks,
            months: self.months - rhs.months,
            hours: self.hours - rhs.hours,
            minutes: self.minutes - rhs.minutes,
            seconds: self.seconds - rhs.seconds,
            nanoseconds: self.nanoseconds - rhs.nanoseconds,
        }
    }

    /// Subtracts `rhs` from this interval, component by component.
    pub fn sub_assign(&mut self, rhs: Interval)
        requires
            old(self)@.sub_fits(rhs@),
        ensures
            final(self)@ == old(self)@.minus(rhs@),
    {
        self.years = self.years - rhs.years;
        self.days = self.days - rhs.days;
        self.weeks = self.weeks - rhs.weeks;
        self.months = self.months - rhs.months;
        self.hours = self.hours - rhs.hours;
        self.minutes = self.minutes - rhs.minutes;
        self.seconds = self.seconds - rhs.seconds;
        self.nanoseconds = self.nanoseconds - rhs.nanoseconds;
    }

    /// The interval with every component negated.
    pub fn neg(self) -> (r: Interval)
        requires
            self@.neg_fits(),
        ensures
            r@ == self@.negated(),
    {
        Interval {
            years: -self.years,
            days: -self.days,
            weeks: -self.weeks,
            months: -self.months,
            hours: -self.hours,
            minutes: -self.minutes,
            seconds: -self.seconds,
            nanoseconds: -self.nanoseconds,
        }
    }

    /// Normalize the interval so that large units are combined to their larger unit.
    /// For example, this turns 90 minutes into 1 hour and 30 minutes or 9 days into
    /// 1 week and 2 days.
    ///
    /// Each unit from nanoseconds up to days is carried into the next one (seconds,
    /// minutes, hours, days, weeks) where its magnitude reaches the size of that unit,
    /// and months are carried into years; a unit that is carried keeps its Euclidean
    /// remainder. Weeks are not carried.
    pub fn normalize(&mut self)
        requires
            old(self)@.normalize_fits(),
        ensures
            final(self)@ == old(self)@.normalized(),
            final(self)@.is_normal(),
    {
        proof {
            lemma_normalized_is_normal(self@);
        }
        if self.nanoseconds >= 1_000_000_000 || self.nanoseconds <= -1_000_000_000 {
            self.seconds = self.seconds + div_euclid_i64(self.nanoseconds, 1_000_000_000);
            self.nanoseconds = rem_euclid_i64(self.nanoseconds, 1_000_000_000);
        }
        if self.seconds >= 60 || self.seconds <= -60 {
            self.minutes = self.minutes + div_euclid_i64(self.seconds, 60);
            self.seconds = rem_euclid_i64(self.seconds, 60);
        }
        if self.minutes >= 60 || self.minutes <= -60 {
            self.hours = self.hours + (div_euclid_i64(self.minutes, 60) as i32);
            self.minutes = rem_euclid_i64(self.minutes, 60);
        }
        if self.hours >= 24 || self.hours <= -24 {
            self.days = self.days + div_euclid_i64(self.hours as i64, 24) as i32;
            self.hours = rem_euclid_i64(self.hours as i64, 24) as i32;
        }
        if self.days >= 7 || self.days <= -7 {
            self.weeks = self.weeks + div_euclid_i64(self.days as i64, 7) as i32;
            self.days = rem_euclid_i64(self.days as i64, 7) as i32;
        }
        // Weeks cannot be reduced further, but months are carried into years: the
        // calendar is Gregorian, where a year always has twelve months.
        if self.months >= 12 || self.months <= -12 {
            self.years = self.years + (div_euclid_i64(self.months as i64, 12) as i16);
            self.months = rem_euclid_i64(self.months as i64, 12) as i32;
        }
    }

    /// Constructs an [`Interval`] between two dates: the most whole years by which
    /// `start` moves toward `end` without passing it, then the most whole months from
    /// there, then the days that are left, so that moving `start` by the years, then the
    /// months, then the days lands on `end`.
    ///
    /// If `end` is before `start` then each property will be negative.
    pub fn between_dates(start: &Date, end: &Date) -> (r: Interval)
        requires
            fits_i16(end@.year - start@.year),
        ensures
            r@ == dates_between(start@, end@),
            start@.plus_years(r@.years as int).plus_months(r@.months as int).epoch_days()
                + r@.days == end@.epoch_days(),
            start@.on_or_before(end@) && start@ != end@ ==> start@.plus_years(
                r@.years as int,
            ).on_or_before(end@) && forall|k: int|
                r@.years < k && fits_i16(start@.year + k) ==> !(#[trigger] start@.plus_years(
                    k,
                )).on_or_before(end@),
            start@.on_or_before(end@) && start@ != end@ ==> forall|k: int|
                r@.months < k && fits_i16((start@.plus_years(r@.years as int).month_index() + k) / 12)
                    ==> !(#[trigger] start@.plus_years(r@.years as int).plus_months(
                    k,
                )).on_or_before(end@),
            !start@.on_or_before(end@) ==> end@.on_or_before(start@.plus_years(r@.years as int))
                && forall|k: int|
                k < r@.years && fits_i16(start@.year + k) ==> !end@.on_or_before(
                    #[trigger] start@.plus_years(k),
                ),
            !start@.on_or_before(end@) ==> forall|k: int|
                k < r@.months && fits_i16((start@.plus_years(r@.years as int).month_index() + k) / 12)
                    ==> !end@.on_or_before(
                    #[trigger] start@.plus_years(r@.years as int).plus_months(k),
                ),
            start@.on_or_before(end@) ==> r@.years >= 0 && r@.months >= 0 && r@.days >= 0,
            end@.on_or_before(start@) ==> r@.years <= 0 && r@.months <= 0 && r@.days <= 0,
            r@.weeks == 0 && r@.hours == 0 && r@.minutes == 0 && r@.seconds == 0
                && r@.nanoseconds == 0,
    {
        proof {
            use_type_invariant(start);
            use_type_invariant(end);
        }
        // Trivial case
        if *start == *end {
            proof {
                crate::date::lemma_plus_nothing(start@);
            }
            return Interval::zero();
        }
        let mut result = *start;
        let years = years_between(&result, end);
        result = result.add_years(years);
        proof {
            use_type_invariant(&result);
        }
        let months = months_between(&result, end);
        result = result.add_months(months);
        proof {
            use_type_invariant(&result);
            if start@.on_or_before(end@) {
                crate::date::lemma_epoch_days_monotone(result@, end@);
            } else {
                crate::date::lemma_epoch_days_monotone(end@, result@);
            }
        }
        let days = end.epoch_days() - result.epoch_days();
        Interval {
            years,
            days,
            weeks: 0,
            months,
            hours: 0,
            minutes: 0,
            seconds: 0,
            nanoseconds: 0,
        }
    }

    /// Constructs an [`Interval`] between two times.
    ///
    /// If `end` is before `start` then each property will be negative.
    pub fn between_times(start: &Time, end: &Time) -> (r: Interval)
        ensures
            r@ == clock_between(end@.total_nanos() - start@.total_nanos()),
            r@.clock_nanos() == end@.total_nanos() - start@.total_nanos(),
            r@.years == 0 && r@.months == 0 && r@.weeks == 0 && r@.days == 0,
            end@.total_nanos() >= start@.total_nanos() ==> 0 <= r@.hours < 24 && 0 <= r@.minutes < 60
                && 0 <= r@.seconds < 60 && 0 <= r@.nanoseconds < NANOS_PER_SEC,
            end@.total_nanos() <= start@.total_nanos() ==> -24 < r@.hours <= 0 && -60 < r@.minutes
                <= 0 && -60 < r@.seconds <= 0 && -NANOS_PER_SEC < r@.nanoseconds <= 0,
    {
        // Times are conceptually simple since they're bounded to at most 24 hours
        let nanos: i64 = end.total_nanos() as i64 - start.total_nanos() as i64;
        proof {
            crate::arith::lemma_trunc_divrem(nanos as int, NANOS_PER_HOUR as int);
        }
        let (hour, nanos) = divrem_i64(nanos, NANOS_PER_HOUR as i64);
        proof {
            crate::arith::lemma_trunc_divrem(nanos as int, NANOS_PER_MIN as int);
        }
        let (minutes, nanos) = divrem_i64(nanos, NANOS_PER_MIN as i64);
        proof {
            crate::arith::lemma_trunc_divrem(nanos as int, NANOS_PER_SEC as int);
        }
        let (seconds, nanos) = divrem_i64(nanos, NANOS_PER_SEC as i64);
        Interval {
            years: 0,
            days: 0,
            weeks: 0,
            months: 0,
            hours: hour as i32,
            minutes,
            seconds,
            nanoseconds: nanos,
        }
    }

    /// The clock part of this interval as a sign and a magnitude: whether it is
    /// negative, then its whole seconds and the nanoseconds left over.
    pub fn to_time_parts(&self) -> (r: (bool, u64, u32))
        requires
            self@.time_duration_fits(),
        ensures
            r.0 == (self@.clock_nanos() < 0),
            r.2 < NANOS_PER_SEC,
            r.1 * NANOS_PER_SEC + r.2 == if self@.clock_nanos() < 0 {
                -self@.clock_nanos()
            } else {
                self@.clock_nanos()
            },
    {
        proof {
            crate::arith::lemma_trunc_divrem(self.nanoseconds as int, 1_000_000_000);
        }
        let mut total_seconds: i64 = self.hours as i64 * 3600 + self.minutes * 60 + self.seconds;
        let (seconds, nanos) = divrem_i64(self.nanoseconds, 1_000_000_000);
        total_seconds = total_seconds + seconds;
        if total_seconds > 0 {
            if nanos >= 0 {
                (false, total_seconds as u64, nanos as u32)
            } else {
                // A whole number of seconds less a fraction of one.
                (false, (total_seconds - 1) as u64, (1_000_000_000 + nanos) as u32)
            }
        } else if total_seconds == 0 {
            // Only a fraction of a second, of either sign.
            if nanos >= 0 {
                (false, 0, nanos as u32)
            } else {
                (true, 0, (-nanos) as u32)
            }
        } else if nanos > 0 {
            // A negative whole number of seconds and a positive fraction of one.
            (true, (-total_seconds - 1) as u64, (1_000_000_000 - nanos) as u32)
        } else {
            (true, (-total_seconds) as u64, (-nanos) as u32)
        }
    }

    /// Returns a duration representing the time components of this interval.
    ///
    /// The first boolean is whether the time ended up being negative; the duration is
    /// the magnitude, made from the parts that [`Interval::to_time_parts`] gives.
    pub fn to_time_duration(&self) -> (r: (bool, Duration))
        requires
            self@.time_duration_fits(),
        ensures
            r.0 == (self@.clock_nanos() < 0),
            duration_nanos_of(r.1) < NANOS_PER_SEC,
            duration_secs_of(r.1) * NANOS_PER_SEC + duration_nanos_of(r.1) == if self@.clock_nanos()
                < 0 {
                -self@.clock_nanos()
            } else {
                self@.clock_nanos()
            },
    {
        let (negative, secs, nanos) = self.to_time_parts();
        (negative, duration_new(secs, nanos))
    }

    /// Adds a duration: its whole seconds to the seconds and its subsecond nanoseconds to
    /// the nanoseconds.
    pub fn add_duration(self, rhs: Duration) -> (r: Interval)
        requires
            self@.add_fits(duration_interval(rhs)),
        ensures
            r@ == self@.plus(duration_interval(rhs)),
            duration_secs_of(rhs) <= i64::MAX ==> r@.seconds == self@.seconds + duration_secs_of(rhs),
            r@.nanoseconds == self@.nanoseconds + duration_nanos_of(rhs),
            (IntervalView { seconds: self@.seconds, nanoseconds: self@.nanoseconds, ..r@ }) == self@,
    {
        self.add(Interval::from(rhs))
    }

    /// Subtracts a duration: its whole seconds from the seconds and its subsecond
    /// nanoseconds from the nanoseconds.
    pub fn sub_duration(self, rhs: Duration) -> (r: Interval)
        requires
            self@.sub_fits(duration_interval(rhs)),
        ensures
            r@ == self@.minus(duration_interval(rhs)),
            duration_secs_of(rhs) <= i64::MAX ==> r@.seconds == self@.seconds - duration_secs_of(rhs),
            r@.nanoseconds == self@.nanoseconds - duration_nanos_of(rhs),
            (IntervalView { seconds: self@.seconds, nanoseconds: self@.nanoseconds, ..r@ }) == self@,
    {
        self.sub(Interval::from(rhs))
    }

    /// Adds a duration to this interval in place.
    pub fn add_assign_duration(&mut self, rhs: Duration)
        requires
            old(self)@.add_fits(duration_interval(rhs)),
        ensures
            final(self)@ == old(self)@.plus(duration_interval(rhs)),
            duration_secs_of(rhs) <= i64::MAX ==> final(self)@.seconds == old(self)@.seconds
                + duration_secs_of(rhs),
            final(self)@.nanoseconds == old(self)@.nanoseconds + duration_nanos_of(rhs),
            (IntervalView {
                seconds: old(self)@.seconds,
                nanoseconds: old(self)@.nanoseconds,
                ..final(self)@
            }) == old(self)@,
    {
        self.seconds = self.seconds + duration_as_secs(&rhs) as i64;
        self.nanoseconds = self.nanoseconds + duration_subsec_nanos(&rhs) as i64;
    }

    /// Subtracts a duration from this interval in place.
    pub fn sub_assign_duration(&mut self, rhs: Duration)
        requires
            old(self)@.sub_fits(duration_interval(rhs)),
        ensures
            final(self)@ == old(self)@.minus(duration_interval(rhs)),
            duration_secs_of(rhs) <= i64::MAX ==> final(self)@.seconds == old(self)@.seconds
                - duration_secs_of(rhs),
            final(self)@.nanoseconds == old(self)@.nanoseconds - duration_nanos_of(rhs),
            (IntervalView {
                seconds: old(self)@.seconds,
                nanoseconds: old(self)@.nanoseconds,
                ..final(self)@
            }) == old(self)@,
    {
        self.seconds = self.seconds - duration_as_secs(&rhs) as i64;
        self.nanoseconds = self.nanoseconds - duration_subsec_nanos(&rhs) as i64;
    }
}


/// After normalisation every component lies below the size of the next unit up in
/// magnitude.
pub proof fn lemma_normalized_is_normal(v: IntervalView)
    requires
        v.normalize_fits(),
    ensures
        v.normalized().is_normal(),
{
    vstd::arithmetic::div_mod::lemma_mod_bound(v.nanoseconds as int, 1_000_000_000);
    let v1 = v.carry_nanos();
    vstd::arithmetic::div_mod::lemma_mod_bound(v1.seconds as int, 60);
    let v2 = v1.carry_seconds();
    vstd::arithmetic::div_mod::lemma_mod_bound(v2.minutes as int, 60);
    let v3 = v2.carry_minutes();
    vstd::arithmetic::div_mod::lemma_mod_bound(v3.hours as int, 24);
    let v4 = v3.carry_hours();
    vstd::arithmetic::div_mod::lemma_mod_bound(v4.days as int, 7);
    let v5 = v4.carry_days();
    vstd::arithmetic::div_mod::lemma_mod_bound(v5.months as int, 12);
}

/// An interval whose components are all below their next unit is left as it is.
pub proof fn lemma_normal_is_fixed(v: IntervalView)
    requires
        v.is_normal(),
    ensures
        v.normalize_fits(),
        v.normalized() == v,
{
}

/// Normalising twice gives what normalising once gives.
pub proof fn lemma_normalize_idempotent(v: IntervalView)
    requires
        v.normalize_fits(),
    ensures
        v.normalized().normalize_fits(),
        v.normalized().normalized() == v.normalized(),
{
    lemma_normalized_is_normal(v);
    lemma_normal_is_fixed(v.normalized());
}

/// What is left of a unit after its carry and what moves on to the next unit.
proof fn lemma_euclid_parts(x: int, k: int)
    requires
        k > 0,
    ensures
        0 <= x % k < k,
        (x - x % k) % k == 0,
        (x - x % k) / k == x / k,
{
    vstd::arithmetic::div_mod::lemma_fundamental_div_mod(x, k);
    vstd::arithmetic::div_mod::lemma_mod_bound(x, k);
    let q = x / k;
    assert(x - x % k == q * k) by (nonlinear_arith)
        requires
            x == k * q + x % k,
    ;
    vstd::arithmetic::div_mod::lemma_mod_multiples_basic(q, k);
    vstd::arithmetic::div_mod::lemma_div_multiples_vanish(q, k);
    assert(k * q == q * k) by (nonlinear_arith);
}

/// Normalisation keeps Euclidean remainders. Take each unit when its turn comes (the
/// nanoseconds, then the seconds after the nanoseconds were carried, and so on; the
/// months as they were): where its magnitude reaches the size of the next unit, what is
/// left of it lies in `[0, size)` and differs from it by a whole number of next units,
/// and exactly that number is added to the next unit; otherwise it is left as it was and
/// nothing is added. So -90 minutes become -2 hours and 30 minutes, -30 hours become
/// -2 days and 18 hours, and -18 months become -2 years and 6 months.
pub proof fn lemma_normalize_euclidean(v: IntervalView)
    requires
        v.normalize_fits(),
    ensures
        ({
            let r = v.normalized();
            let v1 = v.carry_nanos();
            let v2 = v1.carry_seconds();
            let v3 = v2.carry_minutes();
            let v4 = v3.carry_hours();
            let n = v.nanoseconds as int;
            let s = v1.seconds as int;
            let m = v2.minutes as int;
            let h = v3.hours as int;
            let d = v4.days as int;
            let mo = v.months as int;
            &&& if carries(n, 1_000_000_000) {
                &&& 0 <= r.nanoseconds < 1_000_000_000
                &&& (n - r.nanoseconds) % 1_000_000_000 == 0
                &&& s == v.seconds + (n - r.nanoseconds) / 1_000_000_000
            } else {
                r.nanoseconds == n && s == v.seconds
            }
            &&& if carries(s, 60) {
                &&& 0 <= r.seconds < 60
                &&& (s - r.seconds) % 60 == 0
                &&& m == v.minutes + (s - r.seconds) / 60
            } else {
                r.seconds == s && m == v.minutes
            }
            &&& if carries(m, 60) {
                &&& 0 <= r.minutes < 60
                &&& (m - r.minutes) % 60 == 0
                &&& h == v.hours + (((m - r.minutes) / 60) as i32)
            } else {
                r.minutes == m && h == v.hours
            }
            &&& if carries(h, 24) {
                &&& 0 <= r.hours < 24
                &&& (h - r.hours) % 24 == 0
                &&& d == v.days + (h - r.hours) / 24
            } else {
                r.hours == h && d == v.days
            }
            &&& if carries(d, 7) {
                &&& 0 <= r.days < 7
                &&& (d - r.days) % 7 == 0
                &&& r.weeks == v.weeks + (d - r.days) / 7
            } else {
                r.days == d && r.weeks == v.weeks
            }
            &&& if carries(mo, 12) {
                &&& 0 <= r.months < 12
                &&& (mo - r.months) % 12 == 0
                &&& r.years == v.years + (((mo - r.months) / 12) as i16)
            } else {
                r.months == mo && r.years == v.years
            }
        }),
{
    let v1 = v.carry_nanos();
    let v2 = v1.carry_seconds();
    let v3 = v2.carry_minutes();
    let v4 = v3.carry_hours();
    lemma_euclid_parts(v.nanoseconds as int, 1_000_000_000);
    lemma_euclid_parts(v1.seconds as int, 60);
    lemma_euclid_parts(v2.minutes as int, 60);
    lemma_euclid_parts(v3.hours as int, 24);
    lemma_euclid_parts(v4.days as int, 7);
    lemma_euclid_parts(v.months as int, 12);
}

/// A duration converts to an interval of the same length: its whole seconds and its
/// subsecond nanoseconds, wherever the seconds fit an `i64`.
pub proof fn lemma_duration_interval_length(d: Duration)
    requires
        duration_secs_of(d) <= i64::MAX,
    ensures
        duration_interval(d).seconds == duration_secs_of(d),
        duration_interval(d).nanoseconds == duration_nanos_of(d),
        duration_interval(d).total_months() == 0,
        duration_interval(d).total_nanos() == duration_secs_of(d) * NANOS_PER_SEC
            + duration_nanos_of(d),
{
}

/// Building from milliseconds or microseconds multiplies exactly wherever the product
/// fits an `i64`, and saturates only outside that range.
pub proof fn lemma_sub_second_units_saturate(x: i64)
    ensures
        fits_i64(x * 1_000_000) ==> clamp_i64(x * 1_000_000) == x * 1_000_000,
        x * 1_000_000 > i64::MAX ==> clamp_i64(x * 1_000_000) == i64::MAX,
        x * 1_000_000 < i64::MIN ==> clamp_i64(x * 1_000_000) == i64::MIN,
        fits_i64(x * 1_000) ==> clamp_i64(x * 1_000) == x * 1_000,
        x * 1_000 > i64::MAX ==> clamp_i64(x * 1_000) == i64::MAX,
        x * 1_000 < i64::MIN ==> clamp_i64(x * 1_000) == i64::MIN,
{
    crate::arith::lemma_clamp_i64(x * 1_000_000);
    crate::arith::lemma_clamp_i64(x * 1_000);
}

/// A carry from a unit of size `k` into the next keeps `big * k + small`.
proof fn lemma_carry_keeps_total(small: int, big: int, k: int)
    requires
        k > 0,
    ensures
        (big + small / k) * k + small % k == big * k + small,
{
    vstd::arithmetic::div_mod::lemma_fundamental_div_mod(small, k);
    assert((big + small / k) * k == big * k + (small / k) * k) by (nonlinear_arith);
    assert((small / k) * k == k * (small / k)) by (nonlinear_arith);
}

/// Normalisation keeps the length of the interval: the months (years counted as
/// twelve months each) and the nanoseconds of the days, weeks and clock part (a day
/// counted as 24 hours), wherever the two carries that cut their count to a narrower
/// type cut nothing off.
pub proof fn lemma_normalize_keeps_length(v: IntervalView)
    requires
        v.normalize_fits(),
        v.normalize_exact(),
    ensures
        v.normalized().total_months() == v.total_months(),
        v.normalized().total_nanos() == v.total_nanos(),
{
    let v1 = v.carry_nanos();
    let v2 = v1.carry_seconds();
    let v3 = v2.carry_minutes();
    let v4 = v3.carry_hours();
    let v5 = v4.carry_days();
    let v6 = v5.carry_months();
    assert(v1.total_nanos() == v.total_nanos()) by {
        lemma_carry_keeps_total(v.nanoseconds as int, v.seconds as int, 1_000_000_000);
    }
    assert(v2.total_nanos() == v1.total_nanos()) by {
        lemma_carry_keeps_total(v1.seconds as int, v1.minutes as int, 60);
        let t = v1.total_days() * 24 + v1.hours;
        assert((t * 60 + v2.minutes) * 60 + v2.seconds == (t * 60 + v1.minutes) * 60 + v1.seconds)
            by (nonlinear_arith)
            requires
                v2.minutes * 60 + v2.seconds == v1.minutes * 60 + v1.seconds,
        ;
    }
    assert(v3.total_nanos() == v2.total_nanos()) by {
        lemma_carry_keeps_total(v2.minutes as int, v2.hours as int, 60);
        let t = v2.total_days() * 24;
        assert(((t + v3.hours) * 60 + v3.minutes) * 60 == ((t + v2.hours) * 60 + v2.minutes) * 60)
            by (nonlinear_arith)
            requires
                v3.hours * 60 + v3.minutes == v2.hours * 60 + v2.minutes,
        ;
    }
    assert(v4.total_nanos() == v3.total_nanos()) by {
        lemma_carry_keeps_total(v3.hours as int, v3.days as int, 24);
        assert((v4.weeks * 7 + v4.days) * 24 + v4.hours == (v3.weeks * 7 + v3.days) * 24 + v3.hours)
            by (nonlinear_arith)
            requires
                v4.days * 24 + v4.hours == v3.days * 24 + v3.hours,
                v4.weeks == v3.weeks,
        ;
    }
    assert(v5.total_nanos() == v4.total_nanos()) by {
        lemma_carry_keeps_total(v4.days as int, v4.weeks as int, 7);
    }
    assert(v6.total_months() == v5.total_months()) by {
        lemma_carry_keeps_total(v5.months as int, v5.years as int, 12);
    }
}


/// Addition of intervals is commutative.
pub proof fn lemma_add_commutative(a: IntervalView, b: IntervalView)
    ensures
        a.add_fits(b) == b.add_fits(a),
        a.plus(b) == b.plus(a),
{
}

/// The zero interval is neutral for addition.
pub proof fn lemma_add_zero(a: IntervalView)
    ensures
        a.add_fits(IntervalView::zero()),
        a.plus(IntervalView::zero()) == a,
{
}

/// Subtracting what was added gives the interval back.
pub proof fn lemma_add_then_sub(a: IntervalView, b: IntervalView)
    requires
        a.add_fits(b),
    ensures
        a.plus(b).sub_fits(b),
        a.plus(b).minus(b) == a,
{
}

/// Adding what was subtracted gives the interval back.
pub proof fn lemma_sub_then_add(a: IntervalView, b: IntervalView)
    requires
        a.sub_fits(b),
    ensures
        a.minus(b).add_fits(b),
        a.minus(b).plus(b) == a,
{
}

/// Subtracting an interval is adding its negation.
pub proof fn lemma_sub_is_add_neg(a: IntervalView, b: IntervalView)
    requires
        b.neg_fits(),
    ensures
        a.sub_fits(b) == a.add_fits(b.negated()),
        a.minus(b) == a.plus(b.negated()),
{
}

/// Negating twice gives the interval back.
pub proof fn lemma_neg_involutive(a: IntervalView)
    requires
        a.neg_fits(),
    ensures
        a.negated().neg_fits(),
        a.negated().negated() == a,
{
}

/// An interval less itself is zero.
pub proof fn lemma_sub_self(a: IntervalView)
    ensures
        a.sub_fits(a),
        a.minus(a) == IntervalView::zero(),
{
}

/// Adding or subtracting intervals adds or subtracts their lengths, in months and in
/// nanoseconds.
pub proof fn lemma_plus_minus_lengths(a: IntervalView, b: IntervalView)
    ensures
        a.add_fits(b) ==> a.plus(b).total_months() == a.total_months() + b.total_months(),
        a.add_fits(b) ==> a.plus(b).total_nanos() == a.total_nanos() + b.total_nanos(),
        a.sub_fits(b) ==> a.minus(b).total_months() == a.total_months() - b.total_months(),
        a.sub_fits(b) ==> a.minus(b).total_nanos() == a.total_nanos() - b.total_nanos(),
{
    assert(a.add_fits(b) ==> a.plus(b).total_nanos() == a.total_nanos() + b.total_nanos())
        by (nonlinear_arith);
    assert(a.add_fits(b) ==> a.plus(b).total_months() == a.total_months() + b.total_months())
        by (nonlinear_arith);
    assert(a.sub_fits(b) ==> a.minus(b).total_nanos() == a.total_nanos() - b.total_nanos())
        by (nonlinear_arith);
    assert(a.sub_fits(b) ==> a.minus(b).total_months() == a.total_months() - b.total_months())
        by (nonlinear_arith);
}


/// The whole years from `start` to `end` (see [`years_between_spec`]): the most years by
/// which `start` can move forward without passing `end`, or, going backward, the fewest
/// (most negative) years without passing `end`.
fn years_between(start: &Date, end: &Date) -> (r: i16)
    requires
        fits_i16(end@.year - start@.year),
    ensures
        r == years_between_spec(start@, end@),
        fits_i16(start@.year + r),
        start@.on_or_before(end@) ==> r >= 0 && start@.plus_years(r as int).on_or_before(end@),
        start@.on_or_before(end@) ==> forall|k: int|
            r < k && fits_i16(start@.year + k) ==> !(#[trigger] start@.plus_years(k)).on_or_before(
                end@,
            ),
        !start@.on_or_before(end@) ==> r <= 0 && end@.on_or_before(start@.plus_years(r as int)),
        !start@.on_or_before(end@) ==> forall|k: int|
            k < r && fits_i16(start@.year + k) ==> !end@.on_or_before(
                #[trigger] start@.plus_years(k),
            ),
{
    proof {
        use_type_invariant(start);
        use_type_invariant(end);
        crate::date::lemma_plus_nothing(start@);
    }
    // Assume we're starting from 2019-01-30 and ending at 2021-02-14
    // First get the raw difference in years (in this example, 2)
    let diff: i16 = end.year() - start.year();
    // Check the start date at the ending year... (in this example, 2021-01-30)
    let location = start.add_years(diff);
    proof {
        crate::date::lemma_plus_years_year(start@, diff as int);
    }
    // If our start time is earlier then we've moved forward in time
    if start.on_or_before(end) {
        // In this case we need to check whether we actually landed at date
        // If we haven't overshot our date then we really are N years away
        // Otherwise we're in "year and N months" territory.
        if location.on_or_before(end) {
            diff
        } else {
            diff - 1
        }
    } else {
        // This operates the same way except in the opposite direction
        if end.on_or_before(&location) {
            diff
        } else {
            diff + 1
        }
    }
}

/// The whole months from `start` to `end` (see [`months_between_spec`]), counted as
/// [`years_between`] counts years.
fn months_between(start: &Date, end: &Date) -> (r: i32)
    ensures
        r == months_between_spec(start@, end@),
        fits_i16((start@.month_index() + r) / 12),
        start@ == end@ ==> r == 0,
        start@.on_or_before(end@) ==> r >= 0 && start@.plus_months(r as int).on_or_before(end@),
        start@.on_or_before(end@) ==> forall|k: int|
            r < k && fits_i16((start@.month_index() + k) / 12) ==> !(#[trigger] start@.plus_months(
                k,
            )).on_or_before(end@),
        !start@.on_or_before(end@) ==> r <= 0 && end@.on_or_before(start@.plus_months(r as int)),
        !start@.on_or_before(end@) ==> forall|k: int|
            k < r && fits_i16((start@.month_index() + k) / 12) ==> !end@.on_or_before(
                #[trigger] start@.plus_months(k),
            ),
{
    proof {
        use_type_invariant(start);
        use_type_invariant(end);
        crate::date::lemma_plus_nothing(start@);
    }
    // see years_between for an explanation
    // this is the same except we also subtract years and they're 12 months each
    let diff: i32 = (end.year() as i32 - start.year() as i32) * 12 + end.month() as i32
        - start.month() as i32;
    proof {
        crate::date::lemma_plus_months_index(start@, diff as int);
        vstd::arithmetic::div_mod::lemma_fundamental_div_mod(end@.month_index(), 12);
        vstd::arithmetic::div_mod::lemma_mod_bound(end@.month_index(), 12);
    }
    let location = start.add_months(diff);
    if start.on_or_before(end) {
        if location.on_or_before(end) {
            diff
        } else {
            diff - 1
        }
    } else {
        if end.on_or_before(&location) {
            diff
        } else {
            diff + 1
        }
    }
}


impl From<UtcOffset> for Interval {
    /// The hours, minutes and seconds of an offset from UTC.
    fn from(offset: UtcOffset) -> (r: Interval)
        ensures
            r@ == (IntervalView {
                hours: offset@.0 as i32,
                minutes: offset@.1 as i64,
                seconds: offset@.2 as i64,
                ..IntervalView::zero()
            }),
    {
        let (h, m, s) = offset.into_hms();
        Interval { hours: h as i32, minutes: m as i64, seconds: s as i64, ..Interval::zero() }
    }
}

impl vstd::std_specs::convert::FromSpecImpl<UtcOffset> for Interval {
    open spec fn obeys_from_spec() -> bool {
        true
    }

    closed spec fn from_spec(offset: UtcOffset) -> Interval {
        Interval {
            years: 0,
            days: 0,
            weeks: 0,
            months: 0,
            hours: offset@.0 as i32,
            minutes: offset@.1 as i64,
            seconds: offset@.2 as i64,
            nanoseconds: 0,
        }
    }
}

impl From<Duration> for Interval {
    /// The whole seconds and the subsecond nanoseconds of a duration, as
    /// [`Interval::from_duration_parts`] takes them.
    fn from(dt: Duration) -> (r: Interval)
        ensures
            r@ == duration_interval(dt),
            duration_secs_of(dt) <= i64::MAX ==> r@.seconds == duration_secs_of(dt),
            r@.nanoseconds == duration_nanos_of(dt),
            (IntervalView { seconds: 0, nanoseconds: 0, ..r@ }) == IntervalView::zero(),
    {
        Interval::from_duration_parts(duration_as_secs(&dt), duration_subsec_nanos(&dt))
    }
}

impl vstd::std_specs::convert::FromSpecImpl<Duration> for Interval {
    open spec fn obeys_from_spec() -> bool {
        true
    }

    closed spec fn from_spec(dt: Duration) -> Interval {
        Interval {
            years: 0,
            days: 0,
            weeks: 0,
            months: 0,
            hours: 0,
            minutes: 0,
            seconds: duration_secs_of(dt) as i64,
            nanoseconds: duration_nanos_of(dt) as i64,
        }
    }
}

} // verus!
