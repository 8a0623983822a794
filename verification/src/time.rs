//! Times of day, down to the nanosecond.
use vstd::prelude::*;

verus! {

/// The number of nanoseconds in a second.
pub const NANOS_PER_SEC: u64 = 1_000_000_000;

/// The number of nanoseconds in a minute.
pub const NANOS_PER_MIN: u64 = 60_000_000_000;

/// The number of nanoseconds in an hour.
pub const NANOS_PER_HOUR: u64 = 3_600_000_000_000;

/// The mathematical value of a [`Time`].
pub struct TimeView {
    pub hour: u8,
    pub minute: u8,
    pub second: u8,
    pub nanosecond: u32,
}

impl TimeView {
    /// The number of nanoseconds since midnight.
    pub open spec fn total_nanos(self) -> int {
        self.hour * NANOS_PER_HOUR + self.minute * NANOS_PER_MIN + self.second * NANOS_PER_SEC
            + self.nanosecond
    }
}

/// Whether the parts name a time of day.
pub open spec fn is_valid_time(hour: int, minute: int, second: int, nanosecond: int) -> bool {
    0 <= hour < 24 && 0 <= minute < 60 && 0 <= second < 60 && 0 <= nanosecond < NANOS_PER_SEC
}

/// A time of day.
#[derive(Clone, Copy, Debug, PartialEq, Eq, Hash)]
pub struct Time {
    hour: u8,
    minute: u8,
    second: u8,
    nanosecond: u32,
}

impl View for Time {
    type V = TimeView;

    closed spec fn view(&self) -> TimeView {
        TimeView {
            hour: self.hour,
            minute: self.minute,
            second: self.second,
            nanosecond: self.nanosecond,
        }
    }
}

impl Time {
    #[verifier::type_invariant]
    spec fn inv(self) -> bool {
        is_valid_time(self.hour as int, self.minute as int, self.second as int, self.nanosecond as int)
    }

    /// Creates a time, or `None` where a part is out of its range.
    pub fn new(hour: u8, minute: u8, second: u8, nanosecond: u32) -> (r: Option<Time>)
        ensures
            r is Some <==> is_valid_time(hour as int, minute as int, second as int, nanosecond as int),
            r matches Some(t) ==> t@ == (TimeView { hour, minute, second, nanosecond }),
    {
        if hour < 24 && minute < 60 && second < 60 && nanosecond < 1_000_000_000 {
            Some(Time { hour, minute, second, nanosecond })
        } else {
            None
        }
    }

    /// The hour of this time.
    pub fn hour(&self) -> (r: u8)
        ensures
            r == self@.hour,
    {
        self.hour
    }

    /// The minute of this time.
    pub fn minute(&self) -> (r: u8)
        ensures
            r == self@.minute,
    {
        self.minute
    }

    /// The second of this time.
    pub fn second(&self) -> (r: u8)
        ensures
            r == self@.second,
    {
        self.second
    }

    /// The nanosecond of this time.
    pub fn nanosecond(&self) -> (r: u32)
        ensures
            r == self@.nanosecond,
    {
        self.nanosecond
    }

    /// The number of nanoseconds since midnight; less than a day's worth.
    pub fn total_nanos(&self) -> (r: u64)
        ensures
            r == self@.total_nanos(),
            r < 24 * NANOS_PER_HOUR,
    {
        proof {
            use_type_invariant(self);
        }
        self.hour as u64 * NANOS_PER_HOUR + self.minute as u64 * NANOS_PER_MIN + self.second as u64
            * NANOS_PER_SEC + self.nanosecond as u64
    }
}

} // verus!
