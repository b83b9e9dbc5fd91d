//! backon's `ExponentialBuilder` and `ExponentialBackoff`.
use crate::duration::{duration_nanos, max_nanos, saturating_sum};
use crate::outside::jitter::{ceiling, jitter_nanos, rng_after_draw};
use backon::{ExponentialBackoff, ExponentialBuilder};
use core::time::Duration;
use vstd::prelude::*;

verus! {

/// backon's `ExponentialBuilder`. Its fields are private: [`exponential_settings`] names them.
#[verifier::external_type_specification]
#[verifier::external_body]
pub struct ExExponentialBuilder(ExponentialBuilder);

/// backon's `ExponentialBackoff`. Its fields are private: [`exponential_model`] names them.
#[verifier::external_type_specification]
#[verifier::external_body]
pub struct ExExponentialBackoff(ExponentialBackoff);

/// What an `ExponentialBuilder` has been told.
pub struct ExponentialSettings {
    /// Whether jitter is on.
    pub jitter: bool,
    /// The growth factor, a number in single precision, by its bits.
    pub factor: nat,
    /// The first delay, in nanoseconds.
    pub min_delay: nat,
    /// The longest delay before jitter, in nanoseconds, if bounded.
    pub max_delay: Option<nat>,
    /// The number of delays to hand out, if bounded.
    pub max_times: Option<nat>,
    /// The budget for the sum of all delays, in nanoseconds, if bounded.
    pub total_delay: Option<nat>,
    /// The seed for the jitter, if one was given.
    pub seed: Option<u64>,
}

/// The state of an `ExponentialBackoff`.
pub struct ExponentialModel {
    /// Whether jitter is on.
    pub jitter: bool,
    /// The state of the random number generator.
    pub rng: u64,
    /// The growth factor, a number in single precision, by its bits.
    pub factor: nat,
    /// The first delay, in nanoseconds.
    pub min_delay: nat,
    /// The longest delay before jitter, in nanoseconds, if bounded.
    pub max_delay: Option<nat>,
    /// The number of calls that may hand out a delay, if bounded.
    pub max_times: Option<nat>,
    /// The budget for the sum of all delays, in nanoseconds, if bounded.
    pub total_delay: Option<nat>,
    /// The last delay handed out, before jitter, if there was one.
    pub current_delay: Option<nat>,
    /// The sum of the delays handed out (kept only where the budget is bounded).
    pub cumulative_delay: nat,
    /// The number of calls counted so far.
    pub attempts: nat,
}

/// The fields of an `ExponentialBuilder`, the factor taken by its bits.
pub uninterp spec fn exponential_settings(builder: ExponentialBuilder) -> ExponentialSettings;

/// The fields of an `ExponentialBackoff`, the factor taken by its bits and the generator's
/// state as one `u64`.
pub uninterp spec fn exponential_model(backoff: ExponentialBackoff) -> ExponentialModel;

/// The nanoseconds of the product of a delay of `nanos` nanoseconds and the factor whose
/// bits are `factor`, as `ExponentialBackoff::next` computes it: in `f32`, with a result
/// that is too large or not a number replaced by `Duration::MAX`.
pub uninterp spec fn scaled_nanos(nanos: nat, factor: nat) -> nat;

/// The bits of the `f32` that `Duration::as_secs_f32` returns for a `Duration` of `nanos`
/// nanoseconds.
pub uninterp spec fn factor_code(nanos: nat) -> nat;

impl ExponentialModel {
    /// The number of calls that may hand out a delay.
    pub open spec fn limit(self) -> nat {
        match self.max_times {
            Some(max_times) => max_times,
            None => usize::MAX as nat,
        }
    }
}

/// `ExponentialBuilder::new` sets a factor of 2.0 (whose bits are `0x4000_0000`), a first
/// delay of one second, a longest delay of 60 seconds and three delays, without jitter,
/// budget or seed.
pub assume_specification[ ExponentialBuilder::new ]() -> (builder: ExponentialBuilder)
    ensures
        exponential_settings(builder) == (ExponentialSettings {
            jitter: false,
            factor: 0x4000_0000,
            min_delay: 1_000_000_000,
            max_delay: Some(60_000_000_000nat),
            max_times: Some(3nat),
            total_delay: None,
            seed: None,
        }),
;

/// `ExponentialBuilder::with_jitter` switches jitter on.
pub assume_specification[ ExponentialBuilder::with_jitter ](builder: ExponentialBuilder) -> (out:
    ExponentialBuilder)
    ensures
        exponential_settings(out) == (ExponentialSettings {
            jitter: true,
            ..exponential_settings(builder)
        }),
;

/// `ExponentialBuilder::with_jitter_seed` sets the seed.
pub assume_specification[ ExponentialBuilder::with_jitter_seed ](
    builder: ExponentialBuilder,
    seed: u64,
) -> (out: ExponentialBuilder)
    ensures
        exponential_settings(out) == (ExponentialSettings {
            seed: Some(seed),
            ..exponential_settings(builder)
        }),
;

/// `ExponentialBuilder::with_factor` sets the factor. The builder takes an `f32`: it gets
/// the one that `Duration::as_secs_f32` returns for `seconds`.
#[verifier::external_body]
pub(crate) fn with_factor_of(builder: ExponentialBuilder, seconds: Duration) -> (out:
    ExponentialBuilder)
    ensures
        exponential_settings(out) == (ExponentialSettings {
            factor: factor_code(duration_nanos(seconds)),
            ..exponential_settings(builder)
        }),
{
    builder.with_factor(seconds.as_secs_f32())
}

/// `ExponentialBuilder::with_min_delay` sets the first delay.
pub assume_specification[ ExponentialBuilder::with_min_delay ](
    builder: ExponentialBuilder,
    min_delay: Duration,
) -> (out: ExponentialBuilder)
    ensures
        exponential_settings(out) == (ExponentialSettings {
            min_delay: duration_nanos(min_delay),
            ..exponential_settings(builder)
        }),
;

/// `ExponentialBuilder::with_max_delay` bounds the delay before jitter.
pub assume_specification[ ExponentialBuilder::with_max_delay ](
    builder: ExponentialBuilder,
    max_delay: Duration,
) -> (out: ExponentialBuilder)
    ensures
        exponential_settings(out) == (ExponentialSettings {
            max_delay: Some(duration_nanos(max_delay)),
            ..exponential_settings(builder)
        }),
;

/// `ExponentialBuilder::without_max_delay` lifts the bound on the delay.
pub assume_specification[ ExponentialBuilder::without_max_delay ](
    builder: ExponentialBuilder,
) -> (out: ExponentialBuilder)
    ensures
        exponential_settings(out) == (ExponentialSettings {
            max_delay: None,
            ..exponential_settings(builder)
        }),
;

/// `ExponentialBuilder::with_max_times` bounds the number of delays.
pub assume_specification[ ExponentialBuilder::with_max_times ](
    builder: ExponentialBuilder,
    max_times: usize,
) -> (out: ExponentialBuilder)
    ensures
        exponential_settings(out) == (ExponentialSettings {
            max_times: Some(max_times as nat),
            ..exponential_settings(builder)
        }),
;

/// `ExponentialBuilder::without_max_times` lifts the bound on the number of delays.
pub assume_specification[ ExponentialBuilder::without_max_times ](
    builder: ExponentialBuilder,
) -> (out: ExponentialBuilder)
    ensures
        exponential_settings(out) == (ExponentialSettings {
            max_times: None,
            ..exponential_settings(builder)
        }),
;

/// `ExponentialBuilder::with_total_delay` sets or lifts the budget for the sum of all
/// delays.
pub assume_specification[ ExponentialBuilder::with_total_delay ](
    builder: ExponentialBuilder,
    total_delay: Option<Duration>,
) -> (out: ExponentialBuilder)
    ensures
        exponential_settings(out) == (ExponentialSettings {
            total_delay: match total_delay {
                Some(total) => Some(duration_nanos(total)),
                None => None,
            },
            ..exponential_settings(builder)
        }),
;

/// `ExponentialBuilder::build` (of `backon::BackoffBuilder`) copies the settings into a
/// generator that has handed out nothing yet. The random number generator starts from the
/// seed where one was set, and else from a state that is not known here.
#[verifier::external_body]
pub(crate) fn exponential_build(builder: ExponentialBuilder) -> (backoff: ExponentialBackoff)
    ensures
        exponential_model(backoff) == (ExponentialModel {
            jitter: exponential_settings(builder).jitter,
            rng: exponential_model(backoff).rng,
            factor: exponential_settings(builder).factor,
            min_delay: exponential_settings(builder).min_delay,
            max_delay: exponential_settings(builder).max_delay,
            max_times: exponential_settings(builder).max_times,
            total_delay: exponential_settings(builder).total_delay,
            current_delay: None,
            cumulative_delay: 0,
            attempts: 0,
        }),
        exponential_settings(builder).seed matches Some(seed) ==> exponential_model(backoff).rng
            == seed,
{
    backon::BackoffBuilder::build(builder)
}

/// `ExponentialBackoff::next` (of `Iterator`) returns `None` once the bound on the number of
/// calls is reached, and counts the call else. The delay before jitter is the first delay
/// on the first call; later it is the last one times the factor, which is neither applied
/// to a delay at the bound nor lets one pass it. With jitter, the jitter drawn on that
/// delay is added, the sum held at `Duration::MAX`. Where a budget is set and the sum of
/// the delays so far and this one is over it, the call returns `None` and keeps only the
/// count and the draw; else it returns the delay and adds it to the sum.
///
/// The sum for the budget is taken with `+`, which panics on overflow. The precondition
/// keeps it in range: it takes the largest delay that this call can come to.
#[verifier::external_body]
pub(crate) fn exponential_next(backoff: &mut ExponentialBackoff) -> (delay: Option<Duration>)
    requires
        ({
            let before = exponential_model(*old(backoff));
            let at_most = match before.current_delay {
                None => before.min_delay,
                Some(current) => match before.max_delay {
                    Some(max_delay) => if current < max_delay {
                        max_delay
                    } else {
                        current
                    },
                    None => max_nanos(),
                },
            };
            before.total_delay is Some && before.attempts < before.limit()
                ==> before.cumulative_delay + ceiling(before.jitter, at_most) <= max_nanos()
        }),
    ensures
        ({
            let before = exponential_model(*old(backoff));
            let after = exponential_model(*final(backoff));
            let magnitude = match before.current_delay {
                None => before.min_delay,
                Some(current) => match before.max_delay {
                    Some(max_delay) => {
                        let grown = if current < max_delay {
                            scaled_nanos(current, before.factor)
                        } else {
                            current
                        };
                        if grown > max_delay {
                            max_delay
                        } else {
                            grown
                        }
                    },
                    None => scaled_nanos(current, before.factor),
                },
            };
            let candidate = if before.jitter {
                saturating_sum(magnitude, jitter_nanos(magnitude, before.rng))
            } else {
                magnitude
            };
            let rng = if before.jitter {
                rng_after_draw(before.rng)
            } else {
                before.rng
            };
            if before.attempts >= before.limit() {
                delay is None && after == before
            } else if before.total_delay matches Some(total) && before.cumulative_delay + candidate
                > total {
                delay is None && after == (ExponentialModel {
                    attempts: before.attempts + 1,
                    rng,
                    ..before
                })
            } else {
                &&& delay matches Some(d)
                &&& duration_nanos(d) == candidate
                &&& magnitude <= duration_nanos(d) <= ceiling(before.jitter, magnitude)
                &&& after == (ExponentialModel {
                    attempts: before.attempts + 1,
                    rng,
                    current_delay: Some(magnitude),
                    cumulative_delay: if before.total_delay is Some {
                        saturating_sum(before.cumulative_delay, candidate)
                    } else {
                        before.cumulative_delay
                    },
                    ..before
                })
            }
        }),
{
    backoff.next()
}

} // verus!
