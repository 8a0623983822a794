//! The few calls into `std::time::Duration` that intervals make.
use vstd::prelude::*;

use std::time::Duration;

verus! {

/// The whole seconds that a `Duration` holds (what `Duration::as_secs` returns).
pub uninterp spec fn duration_secs_of(d: Duration) -> u64;

/// The nanoseconds past the whole seconds that a `Duration` holds (what
/// `Duration::subsec_nanos` returns).
pub uninterp spec fn duration_nanos_of(d: Duration) -> u32;

/// Calls `Duration::new(secs, nanos)`.
///
/// `Duration::new` panics only where carrying whole seconds out of `nanos` overflows
/// `secs`; below a billion nanoseconds nothing is carried, which `requires` asks for.
/// Then, as its documentation says, the duration holds `secs` whole seconds and
/// `nanos` nanoseconds.
#[verifier::external_body]
pub(crate) fn duration_new(secs: u64, nanos: u32) -> (r: Duration)
    requires
        nanos < 1_000_000_000,
    ensures
        duration_secs_of(r) == secs,
        duration_nanos_of(r) == nanos,
{
    Duration::new(secs, nanos)
}

/// Calls `Duration::as_secs`, the number of whole seconds of a duration.
#[verifier::external_body]
pub(crate) fn duration_as_secs(d: &Duration) -> (r: u64)
    ensures
        r == duration_secs_of(*d),
{
    d.as_secs()
}

/// Calls `Duration::subsec_nanos`, the fractional part of a duration in nanoseconds.
/// Its documentation says that the value is always below one billion.
#[verifier::external_body]
pub(crate) fn duration_subsec_nanos(d: &Duration) -> (r: u32)
    ensures
        r == duration_nanos_of(*d),
        r < 1_000_000_000,
{
    d.subsec_nanos()
}

} // verus!
