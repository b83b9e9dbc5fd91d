//! backon's `ConstantBuilder` and `ConstantBackoff`.
use crate::duration::{duration_nanos, max_nanos};
use crate::outside::jitter::{jitter_limit, jitter_nanos, rng_after_draw};
use backon::{ConstantBackoff, ConstantBuilder};
use core::time::Duration;
use vstd::prelude::*;

verus! {

/// backon's `ConstantBuilder`. Its fields are private: [`constant_settings`] names them.
#[verifier::external_type_specification]
#[verifier::external_body]
pub struct ExConstantBuilder(ConstantBuilder);

/// backon's `ConstantBackoff`. Its fields are private: [`constant_model`] names them.
#[verifier::external_type_specification]
#[verifier::external_body]
pub struct ExConstantBackoff(ConstantBackoff);

/// What a `ConstantBuilder` has been told.
pub struct ConstantSettings {
    /// The delay, in nanoseconds.
    pub delay: nat,
    /// The number of delays to hand out, if bounded.
    pub max_times: Option<nat>,
    /// Whether jitter is on.
    pub jitter: bool,
    /// The seed for the jitter, if one was given.
    pub seed: Option<u64>,
}

/// The state of a `ConstantBackoff`.
pub struct ConstantModel {
    /// The delay, in nanoseconds.
    pub delay: nat,
    /// The number of delays to hand out, if bounded.
    pub max_times: Option<nat>,
    /// The number of delays handed out so far (counted only where `max_times` is bounded).
    pub attempts: nat,
    /// Whether jitter is on.
    pub jitter: bool,
    /// The state of the random number generator.
    pub rng: u64,
}

/// The fields of a `ConstantBuilder`.
pub uninterp spec fn constant_settings(builder: ConstantBuilder) -> ConstantSettings;

/// The fields of a `ConstantBackoff`, the generator's state taken as one `u64`.
pub uninterp spec fn constant_model(backoff: ConstantBackoff) -> ConstantModel;

impl ConstantModel {
    /// Whether the bound on the number of delays is reached.
    pub open spec fn exhausted(self) -> bool {
        self.max_times matches Some(max_times) && self.attempts >= max_times
    }

    /// Whether `next` can add the jitter to the delay without overflow.
    pub open spec fn fits(self) -> bool {
        self.jitter ==> self.delay + jitter_limit(self.delay) <= max_nanos()
    }
}

/// `ConstantBuilder::new` sets a delay of one second and three delays, without jitter or
/// seed.
pub assume_specification[ ConstantBuilder::new ]() -> (builder: ConstantBuilder)
    ensures
        constant_settings(builder) == (ConstantSettings {
            delay: 1_000_000_000,
            max_times: Some(3nat),
            jitter: false,
            seed: None,
        }),
;

/// `ConstantBuilder::with_delay` sets the delay.
pub assume_specification[ ConstantBuilder::with_delay ](
    builder: ConstantBuilder,
    delay: Duration,
) -> (out: ConstantBuilder)
    ensures
        constant_settings(out) == (ConstantSettings {
            delay: duration_nanos(delay),
            ..constant_settings(builder)
        }),
;

/// `ConstantBuilder::with_max_times` bounds the number of delays.
pub assume_specification[ ConstantBuilder::with_max_times ](
    builder: ConstantBuilder,
    max_times: usize,
) -> (out: ConstantBuilder)
    ensures
        constant_settings(out) == (ConstantSettings {
            max_times: Some(max_times as nat),
            ..constant_settings(builder)
        }),
;

/// `ConstantBuilder::without_max_times` lifts the bound on the number of delays.
pub assume_specification[ ConstantBuilder::without_max_times ](builder: ConstantBuilder) -> (out:
    ConstantBuilder)
    ensures
        constant_settings(out) == (ConstantSettings { max_times: None, ..constant_settings(builder) }),
;

/// `ConstantBuilder::with_jitter` switches jitter on.
pub assume_specification[ ConstantBuilder::with_jitter ](builder: ConstantBuilder) -> (out:
    ConstantBuilder)
    ensures
        constant_settings(out) == (ConstantSettings { jitter: true, ..constant_settings(builder) }),
;

/// `ConstantBuilder::with_jitter_seed` sets the seed.
pub assume_specification[ ConstantBuilder::with_jitter_seed ](
    builder: ConstantBuilder,
    seed: u64,
) -> (out: ConstantBuilder)
    ensures
        constant_settings(out) == (ConstantSettings { seed: Some(seed), ..constant_settings(builder) }),
;

/// `ConstantBuilder::build` (of `backon::BackoffBuilder`) copies delay, bound and jitter
/// into a generator that has handed out nothing yet. The random number generator starts
/// from the seed where one was set, and else from a state that is not known here.
#[verifier::external_body]
pub(crate) fn constant_build(builder: ConstantBuilder) -> (backoff: ConstantBackoff)
    ensures
        constant_model(backoff) == (ConstantModel {
            delay: constant_settings(builder).delay,
            max_times: constant_settings(builder).max_times,
            attempts: 0,
            jitter: constant_settings(builder).jitter,
            rng: constant_model(backoff).rng,
        }),
        constant_settings(builder).seed matches Some(seed) ==> constant_model(backoff).rng == seed,
{
    backon::BackoffBuilder::build(builder)
}

/// `ConstantBackoff::next` (of `Iterator`) returns `None` once the bound on the number of
/// delays is reached. Before that it counts the delay, where the number is bounded, and
/// returns the delay; with jitter, the delay plus the jitter drawn on it. It adds the two
/// with `+`, which panics on overflow: `fits` keeps the sum in range.
#[verifier::external_body]
pub(crate) fn constant_next(backoff: &mut ConstantBackoff) -> (delay: Option<Duration>)
    requires
        constant_model(*old(backoff)).fits(),
    ensures
        ({
            let before = constant_model(*old(backoff));
            let after = constant_model(*final(backoff));
            if before.exhausted() {
                delay is None && after == before
            } else {
                &&& delay matches Some(d)
                &&& duration_nanos(d) == if before.jitter {
                    before.delay + jitter_nanos(before.delay, before.rng)
                } else {
                    before.delay
                }
                &&& duration_nanos(d) <= before.delay + jitter_limit(before.delay)
                &&& after == (ConstantModel {
                    attempts: if before.max_times is Some {
                        before.attempts + 1
                    } else {
                        before.attempts
                    },
                    rng: if before.jitter {
                        rng_after_draw(before.rng)
                    } else {
                        before.rng
                    },
                    ..before
                })
            }
        }),
{
    backoff.next()
}

} // verus!
