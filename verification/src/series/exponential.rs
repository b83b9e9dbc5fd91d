//! Delays that grow by a factor.
use crate::duration::{duration_nanos, max_nanos, saturating_sum};
use crate::outside::exponential::{
    exponential_build, exponential_model, exponential_next, exponential_settings, scaled_nanos,
    ExponentialModel, ExponentialSettings,
};
use crate::outside::jitter::{ceiling, jitter_nanos, rng_after_draw};
use crate::tally::Tally;
use backon::{ExponentialBackoff, ExponentialBuilder};
use core::time::Duration;
use vstd::prelude::*;

verus! {

impl ExponentialSettings {
    /// The state of the generator that a builder with these settings builds, with `rng`
    /// for the state of its random number generator.
    pub open spec fn started(self, rng: u64) -> ExponentialModel {
        ExponentialModel {
            jitter: self.jitter,
            rng,
            factor: self.factor,
            min_delay: self.min_delay,
            max_delay: self.max_delay,
            max_times: self.max_times,
            total_delay: self.total_delay,
            current_delay: None,
            cumulative_delay: 0,
            attempts: 0,
        }
    }
}

impl ExponentialModel {
    /// The delay that follows a delay of `current` nanoseconds, before jitter: `current`
    /// times the factor. A delay at the longest delay is not multiplied, and none passes
    /// the longest delay.
    pub open spec fn grow(self, current: nat) -> nat {
        match self.max_delay {
            Some(max_delay) => {
                let grown = if current < max_delay {
                    scaled_nanos(current, self.factor)
                } else {
                    current
                };
                if grown > max_delay {
                    max_delay
                } else {
                    grown
                }
            },
            None => scaled_nanos(current, self.factor),
        }
    }

    /// The delay of the next call before jitter: the first delay, and later what follows
    /// the last one.
    pub open spec fn magnitude(self) -> nat {
        match self.current_delay {
            None => self.min_delay,
            Some(current) => self.grow(current),
        }
    }

    /// The delay before jitter of the call that follows `calls` earlier ones, counted
    /// from a series that has handed out nothing yet.
    pub open spec fn magnitude_at(self, calls: nat) -> nat
        decreases calls,
    {
        if calls == 0 {
            self.min_delay
        } else {
            self.grow(self.magnitude_at((calls - 1) as nat))
        }
    }

    /// The delay that the next call hands out, unless the series ends there.
    pub open spec fn candidate(self) -> nat {
        if self.jitter {
            saturating_sum(self.magnitude(), jitter_nanos(self.magnitude(), self.rng))
        } else {
            self.magnitude()
        }
    }

    /// Whether the next delay would take the sum of all delays over the budget.
    pub open spec fn over_budget(self) -> bool {
        self.total_delay matches Some(total) && self.cumulative_delay + self.candidate() > total
    }

    /// The state of the random number generator after the next call.
    pub open spec fn drawn(self) -> u64 {
        if self.jitter {
            rng_after_draw(self.rng)
        } else {
            self.rng
        }
    }

    /// What one call of the generator's `next` returns, in nanoseconds, and the state that
    /// it leaves.
    pub open spec fn step(self) -> (Option<nat>, ExponentialModel) {
        if self.attempts >= self.limit() {
            (None, self)
        } else if self.over_budget() {
            (None, ExponentialModel { attempts: self.attempts + 1, rng: self.drawn(), ..self })
        } else {
            (
                Some(self.candidate()),
                ExponentialModel {
                    attempts: self.attempts + 1,
                    rng: self.drawn(),
                    current_delay: Some(self.magnitude()),
                    cumulative_delay: if self.total_delay is Some {
                        saturating_sum(self.cumulative_delay, self.candidate())
                    } else {
                        self.cumulative_delay
                    },
                    ..self
                },
            )
        }
    }

    /// Whether the sum of all delays, the next one included, stays a length that a
    /// `Duration` can have. It does where no budget is set. Where one is, this asks for a
    /// longest delay that is kept, and for one of two things: room for one more delay above
    /// the budget, or room for as many delays of the longest kind as there are calls.
    pub open spec fn budget_fits(self) -> bool {
        self.total_delay matches Some(total) ==> {
            &&& self.max_delay matches Some(max_delay)
            &&& self.min_delay <= max_delay
            &&& self.current_delay matches Some(current) ==> current <= max_delay
            &&& {
                ||| self.cumulative_delay <= total && total + ceiling(self.jitter, max_delay)
                    <= max_nanos()
                ||| {
                    &&& self.attempts <= self.limit()
                    &&& self.cumulative_delay <= self.attempts * ceiling(self.jitter, max_delay)
                    &&& self.limit() * ceiling(self.jitter, max_delay) <= max_nanos()
                }
            }
        }
    }
}

/// As many delays as calls, each no longer than `longest`, and one more: together they are
/// no longer than as many delays of the longest kind as `limit` calls can have.
proof fn lemma_one_more_fits(attempts: nat, limit: nat, longest: nat, sum: nat, next: nat)
    requires
        attempts < limit,
        sum <= attempts * longest,
        next <= longest,
    ensures
        sum <= (attempts + 1) * longest,
        sum + next <= (attempts + 1) * longest <= limit * longest,
{
    assert((attempts + 1) * longest == attempts * longest + longest) by (nonlinear_arith);
    assert((attempts + 1) * longest <= limit * longest) by (nonlinear_arith)
        requires
            attempts + 1 <= limit,
    ;
}

/// The state of an [`ExponentialSeries`].
pub struct ExponentialState {
    /// The state of the generator that computes the delays. Its own count, `attempts`,
    /// is of the calls that it has answered: it counts the call that the budget ends, too.
    pub generator: ExponentialModel,
    /// Whether the series has ended.
    pub exhausted: bool,
    /// The number of delays handed out so far.
    pub attempt_index: nat,
}

impl ExponentialState {
    /// What one call of `next` returns, in nanoseconds, and the state that it leaves. A
    /// series that has ended stays as it is.
    pub open spec fn step(self) -> (Option<nat>, ExponentialState) {
        if self.exhausted {
            (None, self)
        } else {
            (
                self.generator.step().0,
                ExponentialState {
                    generator: self.generator.step().1,
                    exhausted: self.generator.step().0 is None,
                    attempt_index: if self.generator.step().0 is Some {
                        self.attempt_index + 1
                    } else {
                        self.attempt_index
                    },
                },
            )
        }
    }
}

/// A series of delays that grow by a factor up to a longest delay, with or without jitter,
/// and within a budget for their sum.
#[derive(Debug)]
pub struct ExponentialSeries {
    inner: ExponentialBackoff,
    exhausted: bool,
    handed_out: Tally,
}

impl View for ExponentialSeries {
    type V = ExponentialState;

    closed spec fn view(&self) -> ExponentialState {
        ExponentialState {
            generator: exponential_model(self.inner),
            exhausted: self.exhausted,
            attempt_index: self.handed_out@,
        }
    }
}

impl ExponentialSeries {
    /// Whether the sum of the delays stays a length that a `Duration` can have.
    pub open spec fn wf(&self) -> bool {
        self@.generator.budget_fits()
    }

    /// Starts the series that `builder` describes.
    pub(crate) fn start(builder: ExponentialBuilder) -> (series: ExponentialSeries)
        requires
            exponential_settings(builder).started(0).budget_fits(),
        ensures
            series.wf(),
            !series@.exhausted,
            series@.attempt_index == 0,
            series@.generator == exponential_settings(builder).started(series@.generator.rng),
            exponential_settings(builder).seed matches Some(seed) ==> series@.generator.rng
                == seed,
    {
        ExponentialSeries {
            inner: exponential_build(builder),
            exhausted: false,
            handed_out: Tally::new(),
        }
    }

    /// Hands out the next delay, or `None` once the series has ended: when as many delays
    /// as the series has were handed out, or when the next one would take their sum over
    /// the budget. A series that has ended hands out no delay again.
    pub fn next(&mut self) -> (delay: Option<Duration>)
        requires
            old(self).wf(),
        ensures
            final(self).wf(),
            final(self)@ == old(self)@.step().1,
            match delay {
                Some(d) => old(self)@.step().0 == Some(duration_nanos(d)),
                None => old(self)@.step().0 is None,
            },
            delay matches Some(d) ==> old(self)@.generator.magnitude() <= duration_nanos(d)
                <= ceiling(old(self)@.generator.jitter, old(self)@.generator.magnitude()),
    {
        if self.exhausted {
            return None;
        }
        proof {
            let before = self@.generator;
            if before.total_delay is Some && before.attempts < before.limit() {
                let longest = ceiling(before.jitter, before.max_delay->0);
                let next = ceiling(before.jitter, before.magnitude());
                if before.cumulative_delay <= before.attempts * longest {
                    lemma_one_more_fits(
                        before.attempts,
                        before.limit(),
                        longest,
                        before.cumulative_delay,
                        next,
                    );
                    lemma_one_more_fits(
                        before.attempts,
                        before.limit(),
                        longest,
                        before.cumulative_delay,
                        longest,
                    );
                }
            }
        }
        let delay = exponential_next(&mut self.inner);
        if delay.is_none() {
            self.exhausted = true;
        } else {
            self.handed_out.add_one();
        }
        delay
    }
}

} // verus!
