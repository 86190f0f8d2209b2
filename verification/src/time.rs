//! Specifications for `std::time::Duration`.
//!
//! A duration is modelled by the number of nanoseconds it holds.

use std::time::Duration;
use vstd::prelude::*;

verus! {

/// Nanoseconds in one second.
pub const NANOS_PER_SEC: u32 = 1_000_000_000;

/// Nanoseconds in one millisecond.
pub const NANOS_PER_MILLI: u32 = 1_000_000;

/// The length of a duration in nanoseconds. This is the model by which all
/// contracts in this crate speak of a `Duration`.
pub uninterp spec fn duration_nanos(d: Duration) -> nat;

/// `Duration::new`: the duration of `secs` whole seconds and `nanos`
/// nanoseconds. The constructor panics when the seconds carried over from
/// `nanos` overflow the seconds counter, so such arguments are excluded.
pub assume_specification[ Duration::new ](secs: u64, nanos: u32) -> (d: Duration)
    requires
        secs + nanos / NANOS_PER_SEC <= u64::MAX,
    ensures
        duration_nanos(d) == secs * NANOS_PER_SEC + nanos,
;

/// `Duration::from_secs`: the duration of `secs` whole seconds.
pub assume_specification[ Duration::from_secs ](secs: u64) -> (d: Duration)
    ensures
        duration_nanos(d) == secs * NANOS_PER_SEC,
;

/// `Duration::from_millis`: the duration of `millis` milliseconds.
pub assume_specification[ Duration::from_millis ](millis: u64) -> (d: Duration)
    ensures
        duration_nanos(d) == millis * NANOS_PER_MILLI,
;

/// `Duration::as_secs`: the whole seconds that the duration holds.
pub assume_specification[ Duration::as_secs ](d: &Duration) -> (secs: u64)
    ensures
        secs == duration_nanos(*d) / (NANOS_PER_SEC as nat),
;

/// `Duration::subsec_nanos`: the part of the duration beyond its whole
/// seconds, in nanoseconds; always less than one second.
pub assume_specification[ Duration::subsec_nanos ](d: &Duration) -> (nanos: u32)
    ensures
        nanos == duration_nanos(*d) % (NANOS_PER_SEC as nat),
;

/// `Duration::clone`: a duration is `Copy`, and its clone is the same value.
pub assume_specification[ <Duration as Clone>::clone ](d: &Duration) -> (copy: Duration)
    ensures
        copy == *d,
;

/// The largest number of nanoseconds that a `Duration` can hold.
pub open spec fn max_duration_nanos() -> nat {
    (u64::MAX as nat) * (NANOS_PER_SEC as nat) + 999_999_999
}

/// The length of `d` in nanoseconds.
pub fn nanos_of(d: &Duration) -> (n: u128)
    ensures
        n == duration_nanos(*d),
        n <= max_duration_nanos(),
{
    let secs: u64 = d.as_secs();
    let sub: u32 = d.subsec_nanos();
    (secs as u128) * (NANOS_PER_SEC as u128) + (sub as u128)
}

/// The duration that is `n` nanoseconds long.
pub fn duration_of(n: u128) -> (d: Duration)
    requires
        n <= max_duration_nanos(),
    ensures
        duration_nanos(d) == n,
{
    let secs: u128 = n / 1_000_000_000;
    let sub: u128 = n % 1_000_000_000;
    assert(n == secs * 1_000_000_000 + sub);
    assert(secs <= u64::MAX);
    Duration::new(secs as u64, sub as u32)
}

} // verus!
