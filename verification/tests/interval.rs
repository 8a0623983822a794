use lib::{Date, Interval, Time, UtcOffset};
use std::time::Duration;

fn date(y: i16, m: u8, d: u8) -> Date {
    Date::new(y, m, d).unwrap()
}

fn time(h: u8, m: u8, s: u8) -> Time {
    Time::new(h, m, s, 0).unwrap()
}

fn parts(iv: &Interval) -> (i16, i32, i32, i32, i32, i64, i64, i64) {
    (
        iv.years(),
        iv.months(),
        iv.weeks(),
        iv.days(),
        iv.hours(),
        iv.minutes(),
        iv.seconds(),
        iv.nanoseconds(),
    )
}

#[test]
fn normalize_carries_units() {
    let mut interval = Interval::from_minutes(90)
        .add(Interval::from_days(9))
        .add(Interval::from_months(13))
        .add(Interval::from_years(1));
    interval.normalize();
    assert_eq!(interval.years(), 2);
    assert_eq!(interval.months(), 1);
    assert_eq!(interval.weeks(), 1);
    assert_eq!(interval.days(), 2);
    assert_eq!(interval.hours(), 1);
    assert_eq!(interval.minutes(), 30);
}

#[test]
fn normalize_negative_keeps_euclidean_remainder() {
    let mut interval = Interval::from_seconds(-90).with_nanoseconds(-1_500_000_000);
    interval.normalize();
    // -1.5 s becomes -2 s + 0.5 s; -92 s becomes -2 min + 28 s.
    assert_eq!(parts(&interval), (0, 0, 0, 0, 0, -2, 28, 500_000_000));
}

#[test]
fn normalize_leaves_small_negative_values() {
    let mut interval = Interval::from_minutes(-59).with_hours(-23).with_days(-6).with_months(-11);
    let before = interval;
    interval.normalize();
    assert_eq!(interval, before);
}

#[test]
fn normalize_is_idempotent() {
    let mut once = Interval::from_nanoseconds(123_456_789_012_345)
        .with_hours(50)
        .with_months(-30)
        .with_days(15);
    once.normalize();
    let mut twice = once;
    twice.normalize();
    assert_eq!(once, twice);
}

#[test]
fn normalize_keeps_length() {
    let mut iv = Interval::from_nanoseconds(-7_000_000_001)
        .with_seconds(3_661)
        .with_hours(49)
        .with_days(-20)
        .with_months(25)
        .with_years(-3);
    let length = |iv: &Interval| -> (i64, i128) {
        let months = iv.years() as i64 * 12 + iv.months() as i64;
        let nanos = (((((iv.weeks() as i128 * 7 + iv.days() as i128) * 24 + iv.hours() as i128)
            * 60
            + iv.minutes() as i128)
            * 60
            + iv.seconds() as i128)
            * 1_000_000_000)
            + iv.nanoseconds() as i128;
        (months, nanos)
    };
    let before = length(&iv);
    iv.normalize();
    assert_eq!(length(&iv), before);
    assert_eq!(parts(&iv), (-1, 1, -3, 3, 2, 0, 53, 999_999_999));
}

#[test]
fn between_dates_doc_example() {
    let interval = Interval::between_dates(&date(2012, 3, 29), &date(2012, 4, 30));
    assert_eq!(interval.months(), 1);
    assert_eq!(interval.days(), 1);
    assert_eq!(interval.years(), 0);
}

#[test]
fn between_dates_backward_is_negative() {
    let interval = Interval::between_dates(&date(2012, 4, 30), &date(2012, 3, 29));
    assert_eq!(parts(&interval), (0, -1, 0, -1, 0, 0, 0, 0));
}

#[test]
fn between_dates_same_day_is_zero() {
    let d = date(2021, 7, 4);
    assert_eq!(Interval::between_dates(&d, &d), Interval::zero());
}

#[test]
fn between_dates_counts_years_first() {
    let interval = Interval::between_dates(&date(2019, 1, 30), &date(2021, 2, 14));
    assert_eq!(parts(&interval), (2, 0, 0, 15, 0, 0, 0, 0));
}

#[test]
fn between_dates_leap_day_start() {
    // Three years take 2020-02-29 to 2023-02-28, twelve months from there reach
    // 2024-02-28.
    let interval = Interval::between_dates(&date(2020, 2, 29), &date(2024, 2, 28));
    assert_eq!(parts(&interval), (3, 12, 0, 0, 0, 0, 0, 0));
    let interval = Interval::between_dates(&date(2020, 2, 29), &date(2024, 2, 29));
    assert_eq!(parts(&interval), (4, 0, 0, 0, 0, 0, 0, 0));
}

#[test]
fn between_dates_lands_on_end() {
    let start = date(1999, 12, 31);
    let end = date(2003, 3, 1);
    let iv = Interval::between_dates(&start, &end);
    let landed = start.add_years(iv.years()).add_months(iv.months());
    assert_eq!(landed.epoch_days() + iv.days(), end.epoch_days());
}

#[test]
fn between_times_doc_example() {
    let interval = Interval::between_times(&time(10, 0, 30), &time(23, 30, 15));
    assert_eq!(interval.hours(), 13);
    assert_eq!(interval.minutes(), 29);
    assert_eq!(interval.seconds(), 45);
}

#[test]
fn between_times_backward_is_negative() {
    let start = Time::new(23, 30, 15, 500).unwrap();
    let interval = Interval::between_times(&start, &time(10, 0, 30));
    assert_eq!(parts(&interval), (0, 0, 0, 0, -13, -29, -45, -500));
}

#[test]
fn from_milliseconds_saturates() {
    assert_eq!(Interval::from_milliseconds(1_500).nanoseconds(), 1_500_000_000);
    assert_eq!(Interval::from_milliseconds(i64::MAX).nanoseconds(), i64::MAX);
    assert_eq!(Interval::from_milliseconds(i64::MIN).nanoseconds(), i64::MIN);
    assert_eq!(Interval::from_microseconds(-7).nanoseconds(), -7_000);
    assert_eq!(Interval::from_microseconds(i64::MIN / 2).nanoseconds(), i64::MIN);
    assert_eq!(Interval::zero().with_milliseconds(i64::MAX / 2).nanoseconds(), i64::MAX);
    assert_eq!(Interval::zero().with_microseconds(3).nanoseconds(), 3_000);
}

#[test]
fn sub_second_getters_round_toward_zero() {
    let iv = Interval::from_nanoseconds(-1_999_999);
    assert_eq!(iv.milliseconds(), -1);
    assert_eq!(iv.microseconds(), -1_999);
    assert_eq!(Interval::from_milliseconds(42).milliseconds(), 42);
    assert_eq!(Interval::from_microseconds(-42).microseconds(), -42);
}

#[test]
fn with_replaces_one_component() {
    let iv = Interval::from_years(1)
        .with_months(2)
        .with_weeks(3)
        .with_days(4)
        .with_hours(5)
        .with_minutes(6)
        .with_seconds(7)
        .with_nanoseconds(8)
        .with_years(-1);
    assert_eq!(parts(&iv), (-1, 2, 3, 4, 5, 6, 7, 8));
    assert_eq!(Interval::from_weeks(3).weeks(), 3);
}

#[test]
fn add_sub_neg_laws() {
    let a = Interval::from_years(1).with_days(-3).with_nanoseconds(10);
    let b = Interval::from_months(5).with_days(4).with_seconds(-9);
    assert_eq!(a.add(b), b.add(a));
    assert_eq!(a.add(b).sub(b), a);
    assert_eq!(a.sub(b), a.add(b.neg()));
    assert_eq!(a.neg().neg(), a);
    assert_eq!(a.add(Interval::zero()), a);
    assert_eq!(a.sub(a), Interval::zero());
    assert_eq!(parts(&a.add(b)), (1, 5, 0, 1, 0, 0, -9, 10));
}

#[test]
fn assign_forms_match_operators() {
    let a = Interval::from_hours(2).with_minutes(-5);
    let b = Interval::from_hours(-7).with_weeks(1);
    let mut c = a;
    c.add_assign(b);
    assert_eq!(c, a.add(b));
    let mut d = a;
    d.sub_assign(b);
    assert_eq!(d, a.sub(b));
}

#[test]
fn default_is_zero() {
    assert_eq!(Interval::default(), Interval::zero());
    assert_eq!(parts(&Interval::zero()), (0, 0, 0, 0, 0, 0, 0, 0));
}

#[test]
fn totals() {
    let iv = Interval::from_years(2).with_months(-3).with_weeks(2).with_days(-1);
    assert_eq!(iv.total_months(), 21);
    assert_eq!(iv.total_days(), 13);
}

#[test]
fn from_utc_offset() {
    let offset = UtcOffset::from_hms(-5, -30, 0).unwrap();
    let iv = Interval::from(offset);
    assert_eq!(parts(&iv), (0, 0, 0, 0, -5, -30, 0, 0));
    assert!(UtcOffset::from_hms(24, 0, 0).is_none());
    assert_eq!(UtcOffset::utc().into_hms(), (0, 0, 0));
}

#[test]
fn from_duration() {
    let iv = Interval::from(Duration::new(5, 7));
    assert_eq!(parts(&iv), (0, 0, 0, 0, 0, 0, 5, 7));
    let iv = Interval::from_duration_parts(u64::MAX, 1);
    assert_eq!(iv.seconds(), -1);
    assert_eq!(iv.nanoseconds(), 1);
}

#[test]
fn time_parts_positive_and_negative() {
    let iv = Interval::from_hours(1).with_minutes(2).with_seconds(3).with_nanoseconds(4);
    assert_eq!(iv.to_time_parts(), (false, 3_723, 4));
    let iv = Interval::from_seconds(10).with_nanoseconds(-250_000_000);
    assert_eq!(iv.to_time_parts(), (false, 9, 750_000_000));
    let iv = Interval::from_seconds(-10).with_nanoseconds(250_000_000);
    assert_eq!(iv.to_time_parts(), (true, 9, 750_000_000));
    let iv = Interval::from_minutes(-1).with_nanoseconds(-1_500_000_000);
    assert_eq!(iv.to_time_parts(), (true, 61, 500_000_000));
    assert_eq!(Interval::zero().to_time_parts(), (false, 0, 0));
    assert_eq!(Interval::from_nanoseconds(500).to_time_parts(), (false, 0, 500));
    assert_eq!(Interval::from_nanoseconds(-500).to_time_parts(), (true, 0, 500));
}

#[test]
fn time_duration_is_the_magnitude() {
    let iv = Interval::from_seconds(10).with_nanoseconds(-250_000_000);
    let (negative, d) = iv.to_time_duration();
    assert!(!negative);
    assert_eq!(d, Duration::new(9, 750_000_000));
    let (negative, d) = Interval::from_hours(-2).to_time_duration();
    assert!(negative);
    assert_eq!(d, Duration::from_secs(7_200));
}

#[test]
fn date_arithmetic() {
    assert_eq!(date(1970, 1, 1).epoch_days(), 0);
    assert_eq!(date(1969, 12, 31).epoch_days(), -1);
    assert_eq!(date(2000, 3, 1).epoch_days(), 11_017);
    assert_eq!(date(2024, 2, 29).epoch_days(), 19_782);
    assert_eq!(date(1, 1, 1).epoch_days(), -719_162);
    assert_eq!(date(2024, 2, 29).add_years(1), date(2025, 2, 28));
    assert_eq!(date(2024, 2, 29).add_years(4), date(2028, 2, 29));
    assert_eq!(date(2021, 1, 31).add_months(1), date(2021, 2, 28));
    assert_eq!(date(2021, 1, 31).add_months(-2), date(2020, 11, 30));
    assert_eq!(date(2021, 5, 15).add_months(-17), date(2019, 12, 15));
    assert!(Date::new(2023, 2, 29).is_none());
    assert!(Date::new(2023, 13, 1).is_none());
    assert!(Date::new(1900, 2, 29).is_none());
    assert!(Date::new(2000, 2, 29).is_some());
    assert!(date(2020, 5, 1).on_or_before(&date(2020, 5, 1)));
    assert!(!date(2020, 5, 2).on_or_before(&date(2020, 5, 1)));
}

#[test]
fn time_of_day() {
    let t = Time::new(23, 59, 59, 999_999_999).unwrap();
    assert_eq!(t.total_nanos(), 86_399_999_999_999);
    assert!(Time::new(24, 0, 0, 0).is_none());
    assert!(Time::new(0, 0, 0, 1_000_000_000).is_none());
}

#[test]
fn time_duration_of_zero_and_fractions() {
    assert_eq!(Interval::zero().to_time_duration(), (false, Duration::ZERO));
    assert_eq!(
        Interval::from_nanoseconds(500).to_time_duration(),
        (false, Duration::from_nanos(500))
    );
    assert_eq!(
        Interval::from_milliseconds(-1_500).to_time_duration(),
        (true, Duration::from_millis(1_500))
    );
}

#[test]
fn duration_arithmetic() {
    let d = Duration::new(90, 250);
    let iv = Interval::from_hours(1).with_seconds(10).with_nanoseconds(-50);
    assert_eq!(parts(&iv.add_duration(d)), (0, 0, 0, 0, 1, 0, 100, 200));
    assert_eq!(parts(&iv.sub_duration(d)), (0, 0, 0, 0, 1, 0, -80, -300));
    let mut a = iv;
    a.add_assign_duration(d);
    assert_eq!(a, iv.add_duration(d));
    let mut s = iv;
    s.sub_assign_duration(d);
    assert_eq!(s, iv.sub_duration(d));
    assert_eq!(iv.add_duration(d), iv.add(Interval::from(d)));
}
