use crate::duration::duration_nanos;
use crate::outside::constant::ConstantModel;
use crate::outside::exponential::ExponentialModel;
use crate::outside::fibonacci::FibonacciModel;
use crate::outside::jitter::jitter_limit;
use crate::series::constant::{ConstantSeries, ConstantState};
use crate::series::exponential::{ExponentialSeries, ExponentialState};
use crate::series::fibonacci::FibonacciSeries;
use core::time::Duration;
use vstd::prelude::*;

verus! {

/// Supported backoffs: generators of the delays to wait between the attempts of one
/// operation.
///
/// A generator belongs to one series of attempts. [`next`](Backoff::next) is called once
/// after each failed attempt, and returns the delay to wait before the next one, or
/// `None` when there is to be no further attempt.
#[derive(Debug)]
pub enum Backoff {
    /// Constant backoff.
    Constant(ConstantSeries),
    /// Exponential backoff.
    Exponential(ExponentialSeries),
    /// Fibonacci backoff.
    Fibonacci(FibonacciSeries),
    /// No backoff.
    NoBackoff,
}

/// The state of a [`Backoff`].
pub enum BackoffModel {
    /// The state of a constant backoff.
    Constant(ConstantState),
    /// The state of an exponential backoff.
    Exponential(ExponentialState),
    /// The state of a Fibonacci backoff.
    Fibonacci(FibonacciModel),
    /// No backoff.
    NoBackoff,
}

impl BackoffModel {
    /// What one call of [`Backoff::next`] returns, in nanoseconds, and the state that it
    /// leaves.
    pub open spec fn step(self) -> (Option<nat>, BackoffModel) {
        match self {
            BackoffModel::Constant(state) => (
                state.step().0,
                BackoffModel::Constant(state.step().1),
            ),
            BackoffModel::Exponential(state) => (
                state.step().0,
                BackoffModel::Exponential(state.step().1),
            ),
            BackoffModel::Fibonacci(model) => (
                model.step().0,
                BackoffModel::Fibonacci(model.step().1),
            ),
            BackoffModel::NoBackoff => (None, self),
        }
    }

    /// The delay that is due, before jitter.
    pub open spec fn magnitude(self) -> nat {
        match self {
            BackoffModel::Constant(state) => state.generator.delay,
            BackoffModel::Exponential(state) => state.generator.magnitude(),
            BackoffModel::Fibonacci(model) => model.capped_magnitude(),
            BackoffModel::NoBackoff => 0,
        }
    }

    /// An upper bound of the jitter on the delay that is due: nothing without jitter, and
    /// else one nanosecond more than twice the delay that the jitter is drawn on. That is
    /// the delay before jitter, but for a Fibonacci backoff, which draws every jitter on
    /// its first delay.
    pub open spec fn jitter_bound(self) -> nat {
        match self {
            BackoffModel::Constant(state) if state.generator.jitter => jitter_limit(
                state.generator.delay,
            ),
            BackoffModel::Exponential(state) if state.generator.jitter => jitter_limit(
                state.generator.magnitude(),
            ),
            BackoffModel::Fibonacci(model) if model.jitter => jitter_limit(model.min_delay),
            _ => 0,
        }
    }

    /// The delay that is due: what the next call of [`Backoff::next`] returns, in
    /// nanoseconds, unless the backoff ends there.
    pub open spec fn due(self) -> nat {
        match self {
            BackoffModel::Constant(state) => state.generator.candidate(),
            BackoffModel::Exponential(state) => state.generator.candidate(),
            BackoffModel::Fibonacci(model) => model.capped_magnitude() + model.jitter_part(),
            BackoffModel::NoBackoff => 0,
        }
    }

    /// The state after `calls` calls of [`Backoff::next`].
    pub open spec fn after(self, calls: nat) -> BackoffModel
        decreases calls,
    {
        if calls == 0 {
            self
        } else {
            self.after((calls - 1) as nat).step().1
        }
    }

    /// What the call of [`Backoff::next`] that follows `calls` earlier ones returns, in
    /// nanoseconds.
    pub open spec fn outcome(self, calls: nat) -> Option<nat> {
        self.after(calls).step().0
    }

    /// The number of delays that the first `calls` calls of [`Backoff::next`] return.
    pub open spec fn delays(self, calls: nat) -> nat
        decreases calls,
    {
        if calls == 0 {
            0
        } else {
            self.delays((calls - 1) as nat) + if self.outcome((calls - 1) as nat) is Some {
                1nat
            } else {
                0nat
            }
        }
    }

    /// The sum of what the first `calls` calls of [`Backoff::next`] return, in nanoseconds.
    pub open spec fn total(self, calls: nat) -> nat
        decreases calls,
    {
        if calls == 0 {
            0
        } else {
            self.total((calls - 1) as nat) + match self.outcome((calls - 1) as nat) {
                Some(delay) => delay,
                None => 0,
            }
        }
    }

    /// The number of delays handed out so far. It starts at zero and goes up by one with
    /// each delay; a call that returns `None` leaves it as it is.
    pub open spec fn attempt_index(self) -> nat {
        match self {
            BackoffModel::Constant(state) => state.attempt_index,
            BackoffModel::Exponential(state) => state.attempt_index,
            BackoffModel::Fibonacci(model) => model.attempts,
            BackoffModel::NoBackoff => 0,
        }
    }

    /// Whether jitter is on.
    pub open spec fn jitter(self) -> bool {
        match self {
            BackoffModel::Constant(state) => state.generator.jitter,
            BackoffModel::Exponential(state) => state.generator.jitter,
            BackoffModel::Fibonacci(model) => model.jitter,
            BackoffModel::NoBackoff => false,
        }
    }

    /// The state with `rng` for the state of its random number generator.
    pub open spec fn with_rng(self, rng: u64) -> BackoffModel {
        match self {
            BackoffModel::Constant(state) => BackoffModel::Constant(
                ConstantState { generator: ConstantModel { rng, ..state.generator }, ..state },
            ),
            BackoffModel::Exponential(state) => BackoffModel::Exponential(
                ExponentialState {
                    generator: ExponentialModel { rng, ..state.generator },
                    ..state
                },
            ),
            BackoffModel::Fibonacci(model) => BackoffModel::Fibonacci(
                FibonacciModel { rng, ..model },
            ),
            BackoffModel::NoBackoff => BackoffModel::NoBackoff,
        }
    }

    /// The state of the random number generator, for a backoff that has one.
    pub open spec fn rng(self) -> u64 {
        match self {
            BackoffModel::Constant(state) => state.generator.rng,
            BackoffModel::Exponential(state) => state.generator.rng,
            BackoffModel::Fibonacci(model) => model.rng,
            BackoffModel::NoBackoff => 0,
        }
    }
}

impl View for Backoff {
    type V = BackoffModel;

    open spec fn view(&self) -> BackoffModel {
        match self {
            Backoff::Constant(series) => BackoffModel::Constant(series@),
            Backoff::Exponential(series) => BackoffModel::Exponential(series@),
            Backoff::Fibonacci(series) => BackoffModel::Fibonacci(series@),
            Backoff::NoBackoff => BackoffModel::NoBackoff,
        }
    }
}

impl Backoff {
    /// Whether every delay that the backoff can come to is a length that a `Duration` can
    /// have. [`BackoffConfig::build`](crate::BackoffConfig::build) returns such a backoff,
    /// and a backoff stays one.
    pub open spec fn wf(&self) -> bool {
        match self {
            Backoff::Constant(series) => series.wf(),
            Backoff::Exponential(series) => series.wf(),
            Backoff::Fibonacci(series) => series.wf(),
            Backoff::NoBackoff => true,
        }
    }

    /// Returns the delay to wait before the next attempt, or `None` when the backoff is
    /// exhausted. [`Backoff::NoBackoff`] is exhausted from the start.
    pub fn next(&mut self) -> (delay: Option<Duration>)
        requires
            old(self).wf(),
        ensures
            final(self).wf(),
            final(self)@ == old(self)@.step().1,
            match delay {
                Some(d) => old(self)@.step().0 == Some(duration_nanos(d)),
                None => old(self)@.step().0 is None,
            },
            *old(self) is NoBackoff ==> delay is None,
            final(self)@.attempt_index() == old(self)@.attempt_index() + if delay is Some {
                1nat
            } else {
                0nat
            },
            delay matches Some(d) ==> old(self)@.magnitude() <= duration_nanos(d) <= old(
                self,
            )@.magnitude() + old(self)@.jitter_bound(),
    {
        match self {
            Backoff::Constant(c) => c.next(),
            Backoff::Exponential(e) => e.next(),
            Backoff::Fibonacci(f) => f.next(),
            Backoff::NoBackoff => None,
        }
    }

    /// Returns the next delays, up to `limit` of them and up to the first call of
    /// [`next`](Backoff::next) that returns `None`.
    pub fn take(&mut self, limit: usize) -> (delays: Vec<Duration>)
        requires
            old(self).wf(),
        ensures
            final(self).wf(),
            delays@.len() <= limit,
            forall|i: int|
                0 <= i < delays@.len() ==> old(self)@.outcome(i as nat) == Some(
                    duration_nanos(#[trigger] delays@[i]),
                ),
            delays@.len() < limit ==> old(self)@.outcome(delays@.len()) is None,
            final(self)@.attempt_index() == old(self)@.attempt_index() + delays@.len(),
            final(self)@ == old(self)@.after(
                if delays@.len() < limit {
                    delays@.len() + 1
                } else {
                    delays@.len()
                },
            ),
    {
        let mut delays: Vec<Duration> = Vec::new();
        while delays.len() < limit
            invariant
                self.wf(),
                delays@.len() <= limit,
                forall|i: int|
                    0 <= i < delays@.len() ==> old(self)@.outcome(i as nat) == Some(
                        duration_nanos(#[trigger] delays@[i]),
                    ),
                self@ == old(self)@.after(delays@.len()),
                self@.attempt_index() == old(self)@.attempt_index() + delays@.len(),
            decreases limit - delays@.len(),
        {
            match self.next() {
                Some(delay) => {
                    delays.push(delay);
                },
                None => {
                    return delays;
                },
            }
        }
        delays
    }
}

} // verus!
