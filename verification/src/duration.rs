//! What the library needs to know of `core::time::Duration`.
//!
//! Verus sees a `Duration` as an opaque value. Contracts speak of it through
//! [`duration_nanos`], its length in nanoseconds.
use core::time::Duration;
use vstd::prelude::*;

verus! {

/// The length of a `Duration` in nanoseconds: the number that `Duration::as_nanos` returns.
pub uninterp spec fn duration_nanos(d: Duration) -> nat;

/// The length of `Duration::MAX` in nanoseconds: `u64::MAX` seconds and 999,999,999
/// nanoseconds.
pub const MAX_NANOS: u128 = 18_446_744_073_709_551_615_999_999_999;

/// [`MAX_NANOS`] as a number without a width.
pub open spec fn max_nanos() -> nat {
    MAX_NANOS as nat
}

/// Whether the length of a `Duration` is at most that of `Duration::MAX`, as it is for
/// every `Duration` that a program holds.
pub open spec fn in_range(d: Duration) -> bool {
    duration_nanos(d) <= max_nanos()
}

/// The sum of two lengths, held at the length of `Duration::MAX`: what
/// `Duration::saturating_add` computes.
pub open spec fn saturating_sum(a: nat, b: nat) -> nat {
    if a + b <= max_nanos() {
        a + b
    } else {
        max_nanos()
    }
}

/// `Duration::as_nanos` returns the total number of nanoseconds, which is the meaning of
/// [`duration_nanos`]. No `Duration` is longer than `Duration::MAX`.
pub assume_specification[ Duration::as_nanos ](d: &Duration) -> (nanos: u128)
    ensures
        nanos == duration_nanos(*d),
        nanos <= max_nanos(),
;

/// `Duration::from_millis` makes the `Duration` of that many milliseconds.
pub assume_specification[ Duration::from_millis ](millis: u64) -> (d: Duration)
    ensures
        duration_nanos(d) == millis * 1_000_000,
;

/// `Duration::from_secs` makes the `Duration` of that many seconds.
pub assume_specification[ Duration::from_secs ](secs: u64) -> (d: Duration)
    ensures
        duration_nanos(d) == secs * 1_000_000_000,
;

/// `Duration::new` makes the `Duration` of that many seconds and nanoseconds. It panics
/// where a billion nanoseconds or more carry into seconds that have no room for them: the
/// precondition leaves every carry out.
pub assume_specification[ Duration::new ](secs: u64, nanos: u32) -> (d: Duration)
    requires
        nanos < 1_000_000_000,
    ensures
        duration_nanos(d) == secs * 1_000_000_000 + nanos,
;

/// `Duration::from_nanos` makes the `Duration` of that many nanoseconds.
pub assume_specification[ Duration::from_nanos ](nanos: u64) -> (d: Duration)
    ensures
        duration_nanos(d) == nanos,
;

/// `Duration::saturating_add` adds, and returns `Duration::MAX` where the sum would be
/// longer than that.
pub assume_specification[ Duration::saturating_add ](d: Duration, rhs: Duration) -> (r: Duration)
    ensures
        duration_nanos(r) == saturating_sum(duration_nanos(d), duration_nanos(rhs)),
;

/// `Duration::saturating_sub` subtracts, and returns `Duration::ZERO` where the result
/// would be negative.
pub assume_specification[ Duration::saturating_sub ](d: Duration, rhs: Duration) -> (r: Duration)
    ensures
        duration_nanos(r) == if duration_nanos(d) >= duration_nanos(rhs) {
            duration_nanos(d) - duration_nanos(rhs)
        } else {
            0
        },
;

/// The shorter of two durations.
pub fn shorter(a: Duration, b: Duration) -> (r: Duration)
    ensures
        r == if duration_nanos(a) <= duration_nanos(b) { a } else { b },
{
    if a.as_nanos() <= b.as_nanos() {
        a
    } else {
        b
    }
}

/// The duration that is one nanosecond longer, or `Duration::MAX` itself.
pub fn just_above(d: Duration) -> (r: Duration)
    ensures
        duration_nanos(r) == saturating_sum(duration_nanos(d), 1),
{
    d.saturating_add(Duration::from_nanos(1))
}

} // verus!
