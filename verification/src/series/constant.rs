//! Delays of one length.
use crate::duration::duration_nanos;
use crate::outside::constant::{
    constant_build, constant_model, constant_next, constant_settings, ConstantModel,
    ConstantSettings,
};
use crate::outside::jitter::{jitter_limit, jitter_nanos, rng_after_draw};
use crate::tally::Tally;
use backon::{ConstantBackoff, ConstantBuilder};
use core::time::Duration;
use vstd::prelude::*;

verus! {

impl ConstantSettings {
    /// The state of the generator that a builder with these settings builds, with `rng`
    /// for the state of its random number generator.
    pub open spec fn started(self, rng: u64) -> ConstantModel {
        ConstantModel {
            delay: self.delay,
            max_times: self.max_times,
            attempts: 0,
            jitter: self.jitter,
            rng,
        }
    }
}

impl ConstantModel {
    /// The delay that the next call hands out, unless the series is exhausted.
    pub open spec fn candidate(self) -> nat {
        if self.jitter {
            self.delay + jitter_nanos(self.delay, self.rng)
        } else {
            self.delay
        }
    }

    /// What one call of `next` returns, in nanoseconds, and the state that it leaves.
    pub open spec fn step(self) -> (Option<nat>, ConstantModel) {
        if self.exhausted() {
            (None, self)
        } else {
            (
                Some(self.candidate()),
                ConstantModel {
                    attempts: if self.max_times is Some {
                        self.attempts + 1
                    } else {
                        self.attempts
                    },
                    rng: if self.jitter {
                        rng_after_draw(self.rng)
                    } else {
                        self.rng
                    },
                    ..self
                },
            )
        }
    }
}

/// The state of a [`ConstantSeries`].
pub struct ConstantState {
    /// The state of the generator that computes the delays.
    pub generator: ConstantModel,
    /// The number of delays handed out so far.
    pub attempt_index: nat,
}

impl ConstantState {
    /// What one call of `next` returns, in nanoseconds, and the state that it leaves. The
    /// delays handed out are counted, whether their number is bounded or not.
    pub open spec fn step(self) -> (Option<nat>, ConstantState) {
        (
            self.generator.step().0,
            ConstantState {
                generator: self.generator.step().1,
                attempt_index: if self.generator.step().0 is Some {
                    self.attempt_index + 1
                } else {
                    self.attempt_index
                },
            },
        )
    }
}

/// A series of delays of one length, with or without jitter.
#[derive(Debug)]
pub struct ConstantSeries {
    inner: ConstantBackoff,
    handed_out: Tally,
}

impl View for ConstantSeries {
    type V = ConstantState;

    closed spec fn view(&self) -> ConstantState {
        ConstantState { generator: constant_model(self.inner), attempt_index: self.handed_out@ }
    }
}

impl ConstantSeries {
    /// Whether every delay of the series, jitter included, is a length that a `Duration`
    /// can have.
    pub open spec fn wf(&self) -> bool {
        self@.generator.fits()
    }

    /// Starts the series that `builder` describes.
    pub(crate) fn start(builder: ConstantBuilder) -> (series: ConstantSeries)
        requires
            constant_settings(builder).started(0).fits(),
        ensures
            series.wf(),
            series@.attempt_index == 0,
            series@.generator == constant_settings(builder).started(series@.generator.rng),
            constant_settings(builder).seed matches Some(seed) ==> series@.generator.rng == seed,
    {
        ConstantSeries { inner: constant_build(builder), handed_out: Tally::new() }
    }

    /// Hands out the next delay, or `None` once as many delays as the series has were
    /// handed out.
    pub fn next(&mut self) -> (delay: Option<Duration>)
        requires
            old(self).wf(),
        ensures
            final(self).wf(),
            final(self)@ == old(self)@.step().1,
            match delay {
                Some(d) => old(self)@.step().0 == Some(duration_nanos(d)),
                None => old(self)@.step().0 is None,
            },
            delay matches Some(d) ==> old(self)@.generator.delay <= duration_nanos(d) <= old(
                self,
            )@.generator.delay + jitter_limit(old(self)@.generator.delay),
    {
        let delay = constant_next(&mut self.inner);
        if delay.is_some() {
            self.handed_out.add_one();
        }
        delay
    }
}

} // verus!
