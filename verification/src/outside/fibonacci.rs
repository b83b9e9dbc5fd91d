//! backon's `FibonacciBuilder` and `FibonacciBackoff`.
use crate::duration::{duration_nanos, max_nanos, saturating_sum};
use crate::outside::jitter::{jitter_limit, jitter_nanos, rng_after_draw};
use backon::{FibonacciBackoff, FibonacciBuilder};
use core::time::Duration;
use vstd::prelude::*;

verus! {

/// backon's `FibonacciBuilder`. Its fields are private: [`fibonacci_settings`] names them.
#[verifier::external_type_specification]
#[verifier::external_body]
pub struct ExFibonacciBuilder(FibonacciBuilder);

/// backon's `FibonacciBackoff`. Its fields are private: [`fibonacci_model`] names them.
#[verifier::external_type_specification]
#[verifier::external_body]
pub struct ExFibonacciBackoff(FibonacciBackoff);

/// What a `FibonacciBuilder` has been told.
pub struct FibonacciSettings {
    /// Whether jitter is on.
    pub jitter: bool,
    /// The seed for the jitter, if one was given.
    pub seed: Option<u64>,
    /// The first delay, in nanoseconds.
    pub min_delay: nat,
    /// The delay from which on the delays stop growing, in nanoseconds, if there is one.
    pub max_delay: Option<nat>,
    /// The number of delays to hand out, if bounded.
    pub max_times: Option<nat>,
}

/// The state of a `FibonacciBackoff`.
pub struct FibonacciModel {
    /// Whether jitter is on.
    pub jitter: bool,
    /// The state of the random number generator.
    pub rng: u64,
    /// The first delay, in nanoseconds.
    pub min_delay: nat,
    /// The delay from which on the delays stop growing, in nanoseconds, if there is one.
    pub max_delay: Option<nat>,
    /// The number of delays to hand out, if bounded.
    pub max_times: Option<nat>,
    /// The delay before the last one, before jitter, once the delays have begun to grow.
    pub previous_delay: Option<nat>,
    /// The last delay handed out, before jitter, if there was one.
    pub current_delay: Option<nat>,
    /// The number of delays handed out so far.
    pub attempts: nat,
}

/// The fields of a `FibonacciBuilder`.
pub uninterp spec fn fibonacci_settings(builder: FibonacciBuilder) -> FibonacciSettings;

/// The fields of a `FibonacciBackoff`, the generator's state taken as one `u64`.
pub uninterp spec fn fibonacci_model(backoff: FibonacciBackoff) -> FibonacciModel;

impl FibonacciModel {
    /// The number of delays to hand out.
    pub open spec fn limit(self) -> nat {
        match self.max_times {
            Some(max_times) => max_times,
            None => usize::MAX as nat,
        }
    }

    /// The delay from which on the delays stop growing.
    pub open spec fn ceiling(self) -> nat {
        match self.max_delay {
            Some(max_delay) => max_delay,
            None => max_nanos(),
        }
    }
}

/// `FibonacciBuilder::new` sets a first delay of one second, a longest delay of 60 seconds
/// and three delays, without jitter or seed.
pub assume_specification[ FibonacciBuilder::new ]() -> (builder: FibonacciBuilder)
    ensures
        fibonacci_settings(builder) == (FibonacciSettings {
            jitter: false,
            seed: None,
            min_delay: 1_000_000_000,
            max_delay: Some(60_000_000_000nat),
            max_times: Some(3nat),
        }),
;

/// `FibonacciBuilder::with_jitter` switches jitter on.
pub assume_specification[ FibonacciBuilder::with_jitter ](builder: FibonacciBuilder) -> (out:
    FibonacciBuilder)
    ensures
        fibonacci_settings(out) == (FibonacciSettings {
            jitter: true,
            ..fibonacci_settings(builder)
        }),
;

/// `FibonacciBuilder::with_jitter_seed` sets the seed.
pub assume_specification[ FibonacciBuilder::with_jitter_seed ](
    builder: FibonacciBuilder,
    seed: u64,
) -> (out: FibonacciBuilder)
    ensures
        fibonacci_settings(out) == (FibonacciSettings {
            seed: Some(seed),
            ..fibonacci_settings(builder)
        }),
;

/// `FibonacciBuilder::with_min_delay` sets the first delay.
pub assume_specification[ FibonacciBuilder::with_min_delay ](
    builder: FibonacciBuilder,
    min_delay: Duration,
) -> (out: FibonacciBuilder)
    ensures
        fibonacci_settings(out) == (FibonacciSettings {
            min_delay: duration_nanos(min_delay),
            ..fibonacci_settings(builder)
        }),
;

/// `FibonacciBuilder::with_max_delay` sets the delay from which on the delays stop
/// growing.
pub assume_specification[ FibonacciBuilder::with_max_delay ](
    builder: FibonacciBuilder,
    max_delay: Duration,
) -> (out: FibonacciBuilder)
    ensures
        fibonacci_settings(out) == (FibonacciSettings {
            max_delay: Some(duration_nanos(max_delay)),
            ..fibonacci_settings(builder)
        }),
;

/// `FibonacciBuilder::without_max_delay` lets the delays grow up to `Duration::MAX`.
pub assume_specification[ FibonacciBuilder::without_max_delay ](builder: FibonacciBuilder) -> (out:
    FibonacciBuilder)
    ensures
        fibonacci_settings(out) == (FibonacciSettings {
            max_delay: None,
            ..fibonacci_settings(builder)
        }),
;

/// `FibonacciBuilder::with_max_times` bounds the number of delays.
pub assume_specification[ FibonacciBuilder::with_max_times ](
    builder: FibonacciBuilder,
    max_times: usize,
) -> (out: FibonacciBuilder)
    ensures
        fibonacci_settings(out) == (FibonacciSettings {
            max_times: Some(max_times as nat),
            ..fibonacci_settings(builder)
        }),
;

/// `FibonacciBuilder::without_max_times` lifts the bound on the number of delays.
pub assume_specification[ FibonacciBuilder::without_max_times ](builder: FibonacciBuilder) -> (out:
    FibonacciBuilder)
    ensures
        fibonacci_settings(out) == (FibonacciSettings {
            max_times: None,
            ..fibonacci_settings(builder)
        }),
;

/// `FibonacciBuilder::build` (of `backon::BackoffBuilder`) copies the settings into a
/// generator that has handed out nothing yet. The random number generator starts from the
/// seed where one was set, and else from a state that is not known here. The two delays
/// that the generator holds are `Duration`s, and so at most `Duration::MAX`.
#[verifier::external_body]
pub(crate) fn fibonacci_build(builder: FibonacciBuilder) -> (backoff: FibonacciBackoff)
    ensures
        fibonacci_model(backoff) == (FibonacciModel {
            jitter: fibonacci_settings(builder).jitter,
            rng: fibonacci_model(backoff).rng,
            min_delay: fibonacci_settings(builder).min_delay,
            max_delay: fibonacci_settings(builder).max_delay,
            max_times: fibonacci_settings(builder).max_times,
            previous_delay: None,
            current_delay: None,
            attempts: 0,
        }),
        fibonacci_settings(builder).seed matches Some(seed) ==> fibonacci_model(backoff).rng
            == seed,
        fibonacci_model(backoff).min_delay <= max_nanos(),
        fibonacci_model(backoff).max_delay matches Some(max_delay) ==> max_delay <= max_nanos(),
{
    backon::BackoffBuilder::build(builder)
}

/// `FibonacciBackoff::next` (of `Iterator`) returns `None` once the bound on the number of
/// delays is reached, and counts the delay else. The delay before jitter is the first
/// delay on the first call. Later it is the last one, to which the one before it is added
/// (the sum held at `Duration::MAX`) as long as the last one is below the longest delay;
/// the second delay has none before it and repeats the first. With jitter, the jitter
/// drawn on the first delay is added.
///
/// The jitter is added with `+=`, which panics on overflow. The precondition keeps the
/// sum in range: it takes the largest delay that this call can come to.
#[verifier::external_body]
pub(crate) fn fibonacci_next(backoff: &mut FibonacciBackoff) -> (delay: Option<Duration>)
    requires
        ({
            let before = fibonacci_model(*old(backoff));
            let at_most = match before.current_delay {
                None => before.min_delay,
                Some(current) => match before.previous_delay {
                    Some(previous) => if current < before.ceiling() {
                        current + previous
                    } else {
                        current
                    },
                    None => current,
                },
            };
            before.jitter && before.attempts < before.limit() ==> at_most + jitter_limit(
                before.min_delay,
            ) <= max_nanos()
        }),
    ensures
        ({
            let before = fibonacci_model(*old(backoff));
            let after = fibonacci_model(*final(backoff));
            let grows = before.current_delay matches Some(current) && current < before.ceiling();
            let magnitude = match before.current_delay {
                None => before.min_delay,
                Some(current) => match before.previous_delay {
                    Some(previous) => if grows {
                        saturating_sum(current, previous)
                    } else {
                        current
                    },
                    None => current,
                },
            };
            if before.attempts >= before.limit() {
                delay is None && after == before
            } else {
                &&& delay matches Some(d)
                &&& duration_nanos(d) == if before.jitter {
                    magnitude + jitter_nanos(before.min_delay, before.rng)
                } else {
                    magnitude
                }
                &&& duration_nanos(d) <= magnitude + jitter_limit(before.min_delay)
                &&& after == (FibonacciModel {
                    attempts: before.attempts + 1,
                    rng: if before.jitter {
                        rng_after_draw(before.rng)
                    } else {
                        before.rng
                    },
                    current_delay: Some(magnitude),
                    previous_delay: if grows {
                        before.current_delay
                    } else {
                        before.previous_delay
                    },
                    ..before
                })
            }
        }),
{
    backoff.next()
}

} // verus!
