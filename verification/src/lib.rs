//! Intervals of time kept unit by unit (years, months, weeks, days, hours, minutes,
//! seconds and nanoseconds), with the calendar dates, times of day and UTC offsets
//! they are measured between.
use vstd::prelude::*;

pub mod arith;
pub mod date;
pub mod duration;
pub mod interval;
pub mod offset;
pub mod time;

pub use date::Date;
pub use interval::Interval;
pub use offset::UtcOffset;
pub use time::Time;

verus! {

} // verus!
