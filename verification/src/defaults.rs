//! The defaults used by the [`BackoffConfig`](crate::BackoffConfig).
use crate::duration::duration_nanos;
use crate::factor::Factor;
use crate::nullable::Nullable;
use core::time::Duration;
use vstd::prelude::*;

verus! {

/// Default value for constant / initial backoff delay: 500 milliseconds.
pub fn delay() -> (delay: Duration)
    ensures
        duration_nanos(delay) == 500_000_000,
{
    Duration::from_millis(500)
}

/// Default value for max retries: 4.
pub fn max_retries() -> (max_retries: Nullable<usize>)
    ensures
        max_retries == Nullable::Value(4usize),
{
    Nullable::Value(4)
}

/// Default value whether jitter is enabled: it is.
pub fn jitter_enabled() -> (enabled: bool)
    ensures
        enabled,
{
    true
}

/// Default value for jitter seed: none.
pub fn jitter_seed() -> (seed: Option<u64>)
    ensures
        seed is None,
{
    None
}

/// Default value for backoff factor: 2.
pub fn factor() -> (factor: Factor)
    ensures
        factor@ == 2_000_000_000,
{
    Factor::from_thousandths(2000).unwrap()
}

/// Default value for max backoff delay: 30 seconds.
pub fn max_delay() -> (max_delay: Nullable<Duration>)
    ensures
        max_delay matches Nullable::Value(d) && duration_nanos(d) == 30_000_000_000,
{
    Nullable::Value(Duration::from_secs(30))
}

/// Default value for max total backoff delay: 60 seconds.
pub fn max_total_delay() -> (max_total_delay: Nullable<Duration>)
    ensures
        max_total_delay matches Nullable::Value(d) && duration_nanos(d) == 60_000_000_000,
{
    Nullable::Value(Duration::from_secs(60))
}

} // verus!
