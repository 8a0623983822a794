//! Offsets from UTC.
use vstd::prelude::*;

verus! {

/// Whether the parts make an offset from UTC: each part below a day, an hour and a minute.
pub open spec fn is_valid_offset(hours: int, minutes: int, seconds: int) -> bool {
    -24 < hours < 24 && -60 < minutes < 60 && -60 < seconds < 60
}

/// An offset from UTC, in hours, minutes and seconds.
#[derive(Clone, Copy, Debug, PartialEq, Eq, Hash)]
pub struct UtcOffset {
    hours: i8,
    minutes: i8,
    seconds: i8,
}

impl View for UtcOffset {
    type V = (i8, i8, i8);

    closed spec fn view(&self) -> (i8, i8, i8) {
        (self.hours, self.minutes, self.seconds)
    }
}

impl UtcOffset {
    #[verifier::type_invariant]
    spec fn inv(self) -> bool {
        is_valid_offset(self.hours as int, self.minutes as int, self.seconds as int)
    }

    /// The offset of UTC itself.
    pub fn utc() -> (r: UtcOffset)
        ensures
            r@ == (0i8, 0i8, 0i8),
    {
        UtcOffset { hours: 0, minutes: 0, seconds: 0 }
    }

    /// Creates an offset, or `None` where a part is out of its range.
    pub fn from_hms(hours: i8, minutes: i8, seconds: i8) -> (r: Option<UtcOffset>)
        ensures
            r is Some <==> is_valid_offset(hours as int, minutes as int, seconds as int),
            r matches Some(o) ==> o@ == (hours, minutes, seconds),
    {
        if -24 < hours && hours < 24 && -60 < minutes && minutes < 60 && -60 < seconds && seconds
            < 60 {
            Some(UtcOffset { hours, minutes, seconds })
        } else {
            None
        }
    }

    /// The hours, minutes and seconds of this offset.
    pub fn into_hms(self) -> (r: (i8, i8, i8))
        ensures
            r == self@,
    {
        (self.hours, self.minutes, self.seconds)
    }
}

} // verus!
