//! Durations from the nanosecond counts an engine reports.
use vstd::prelude::*;

verus! {

/// The duration of `nanos` nanoseconds.
pub uninterp spec fn duration_of_nanos(nanos: u64) -> core::time::Duration;

/// std's `Duration::from_nanos`: the duration of `nanos` nanoseconds, a
/// function of the count alone, holding exactly that many nanoseconds.
#[verifier::external_body]
pub fn duration_from_nanos(nanos: u64) -> (r: core::time::Duration)
    ensures
        r == duration_of_nanos(nanos),
        nanos_of(r) == nanos as u128,
{
    core::time::Duration::from_nanos(nanos)
}

/// The duration of `millis` milliseconds.
pub uninterp spec fn duration_of_millis(millis: u64) -> core::time::Duration;

/// std's `Duration::from_millis`: the duration of `millis` milliseconds, a
/// function of the count alone, holding a million nanoseconds for each.
#[verifier::external_body]
pub fn duration_from_millis(millis: u64) -> (r: core::time::Duration)
    ensures
        r == duration_of_millis(millis),
        nanos_of(r) == millis as u128 * 1_000_000,
{
    core::time::Duration::from_millis(millis)
}

/// The whole nanoseconds a duration holds.
pub uninterp spec fn nanos_of(duration: core::time::Duration) -> u128;

/// std's `Duration::as_nanos`: the whole nanoseconds the duration holds, a
/// function of the duration alone. A duration is a `u64` count of seconds
/// and fewer than a billion nanoseconds, so its whole seconds fit `u64`.
#[verifier::external_body]
pub fn nanos(duration: core::time::Duration) -> (r: u128)
    ensures
        r == nanos_of(duration),
        r / 1_000_000_000 <= u64::MAX,
{
    duration.as_nanos()
}

} // verus!
