//! Delays that grow like the Fibonacci numbers.
use crate::duration::{duration_nanos, max_nanos, saturating_sum, MAX_NANOS};
use crate::nullable::Nullable;
use crate::outside::fibonacci::{
    fibonacci_build, fibonacci_model, fibonacci_next, fibonacci_settings, FibonacciModel,
    FibonacciSettings,
};
use crate::outside::jitter::{jitter_limit, jitter_nanos, rng_after_draw};
use backon::{FibonacciBackoff, FibonacciBuilder};
use core::time::Duration;
use vstd::prelude::*;

verus! {

impl FibonacciSettings {
    /// The state of the generator that a builder with these settings builds, with `rng`
    /// for the state of its random number generator.
    pub open spec fn started(self, rng: u64) -> FibonacciModel {
        FibonacciModel {
            jitter: self.jitter,
            rng,
            min_delay: self.min_delay,
            max_delay: self.max_delay,
            max_times: self.max_times,
            previous_delay: None,
            current_delay: None,
            attempts: 0,
        }
    }
}

impl FibonacciModel {
    /// Whether the next delay is the sum of the last two, or the first one again.
    pub open spec fn grows(self) -> bool {
        self.current_delay matches Some(current) && current < self.ceiling()
    }

    /// The delay of the next call as the generator computes it, before jitter: the first
    /// delay, and later the sum of the last two for as long as the last one is below the
    /// longest delay. The sum can pass the longest delay once.
    pub open spec fn magnitude(self) -> nat {
        match self.current_delay {
            None => self.min_delay,
            Some(current) => match self.previous_delay {
                Some(previous) => if self.grows() {
                    saturating_sum(current, previous)
                } else {
                    current
                },
                None => current,
            },
        }
    }

    /// The jitter of the next call: drawn on the first delay, whatever the delay.
    pub open spec fn jitter_part(self) -> nat {
        if self.jitter {
            jitter_nanos(self.min_delay, self.rng)
        } else {
            0
        }
    }

    /// The state that one call of `next` leaves, unless the series is exhausted.
    pub open spec fn advanced(self) -> FibonacciModel {
        FibonacciModel {
            attempts: self.attempts + 1,
            rng: if self.jitter {
                rng_after_draw(self.rng)
            } else {
                self.rng
            },
            current_delay: Some(self.magnitude()),
            previous_delay: if self.grows() {
                self.current_delay
            } else {
                self.previous_delay
            },
            ..self
        }
    }

    /// The delay of the next call before jitter: what the generator computes, held at
    /// the longest delay.
    pub open spec fn capped_magnitude(self) -> nat {
        if self.magnitude() <= self.ceiling() {
            self.magnitude()
        } else {
            self.ceiling()
        }
    }

    /// What one call of `next` returns, in nanoseconds, and the state that it leaves.
    pub open spec fn step(self) -> (Option<nat>, FibonacciModel) {
        if self.attempts >= self.limit() {
            (None, self)
        } else {
            (Some(self.capped_magnitude() + self.jitter_part()), self.advanced())
        }
    }

    /// Whether the delays that the state holds are lengths that a `Duration` can have.
    pub open spec fn in_range(self) -> bool {
        &&& self.min_delay <= max_nanos()
        &&& self.max_delay matches Some(max_delay) ==> max_delay <= max_nanos()
        &&& self.current_delay matches Some(current) ==> current <= max_nanos()
        &&& self.previous_delay matches Some(previous) ==> previous <= max_nanos()
    }

    /// Whether the longest delay leaves room for a delay that has passed it once and for
    /// the jitter on top.
    pub open spec fn bound_fits(self) -> bool {
        &&& self.max_delay matches Some(max_delay)
        &&& 4 * max_delay + 1 <= max_nanos()
        &&& self.min_delay <= max_delay
        &&& self.current_delay matches Some(current) ==> current <= 2 * max_delay
        &&& self.previous_delay matches Some(previous) ==> previous <= max_delay
    }

    /// Whether the series ends before a delay and the jitter on top get too long: the
    /// last delay that it can come to leaves room for the jitter, and the delays so far
    /// are no longer than the Fibonacci numbers in units of the first delay.
    pub open spec fn retries_fit(self) -> bool {
        &&& self.attempts <= self.limit()
        &&& self.limit() >= 1 ==> scaled_fibonacci(self.min_delay, (self.limit() - 1) as nat)
            + jitter_limit(self.min_delay) <= max_nanos()
        &&& match self.current_delay {
            Some(current) => {
                &&& self.attempts >= 1
                &&& current <= scaled_fibonacci(self.min_delay, (self.attempts - 1) as nat)
                &&& self.previous_delay matches Some(previous) ==> current + previous
                    <= scaled_fibonacci(self.min_delay, self.attempts)
            },
            None => self.previous_delay is None,
        }
    }

    /// Whether every delay, jitter included, stays a length that a `Duration` can have.
    /// Without jitter it does. With jitter, either the longest delay or the number of
    /// delays has to see to that.
    pub open spec fn jitter_fits(self) -> bool {
        self.jitter ==> self.bound_fits() || self.retries_fit()
    }
}

/// The Fibonacci numbers in units of `initial`: `initial`, `initial`, and from there on
/// the sum of the last two.
pub open spec fn scaled_fibonacci(initial: nat, index: nat) -> nat
    decreases index,
{
    if index <= 1 {
        initial
    } else {
        scaled_fibonacci(initial, (index - 1) as nat) + scaled_fibonacci(
            initial,
            (index - 2) as nat,
        )
    }
}

/// The Fibonacci numbers do not fall, and none is below the first.
pub proof fn lemma_fibonacci_grows(initial: nat, from: nat, to: nat)
    requires
        from <= to,
    ensures
        initial <= scaled_fibonacci(initial, from) <= scaled_fibonacci(initial, to),
    decreases to,
{
    if from < to {
        lemma_fibonacci_grows(initial, from, (to - 1) as nat);
        if to >= 2 {
            lemma_fibonacci_grows(initial, 0, (to - 2) as nat);
        }
    } else if to >= 2 {
        lemma_fibonacci_grows(initial, (to - 1) as nat, (to - 1) as nat);
    }
}

/// In units of nothing, every Fibonacci number is nothing.
proof fn lemma_fibonacci_of_zero(index: nat)
    ensures
        scaled_fibonacci(0, index) == 0,
    decreases index,
{
    if index >= 2 {
        lemma_fibonacci_of_zero((index - 1) as nat);
        lemma_fibonacci_of_zero((index - 2) as nat);
    }
}

/// Tells whether a series of `retries` delays that starts at `first` nanoseconds ends
/// before a delay and the jitter on top get longer than `Duration::MAX`.
pub fn fibonacci_fits(first: u128, retries: usize) -> (fits: bool)
    requires
        first <= MAX_NANOS,
    ensures
        fits == (retries >= 1 ==> scaled_fibonacci(first as nat, (retries - 1) as nat)
            + jitter_limit(first as nat) <= max_nanos()),
{
    if retries == 0 {
        return true;
    }
    if first == 0 {
        proof {
            lemma_fibonacci_of_zero((retries - 1) as nat);
        }
        return true;
    }
    let room = 2 * first + 1;
    if first + room > MAX_NANOS {
        proof {
            lemma_fibonacci_grows(first as nat, 0, (retries - 1) as nat);
        }
        return false;
    }
    let mut previous: u128 = first;
    let mut current: u128 = first;
    let mut index: usize = 0;
    while index < retries - 1
        invariant
            index <= retries - 1,
            room == jitter_limit(first as nat),
            current == scaled_fibonacci(first as nat, index as nat),
            index >= 1 ==> previous == scaled_fibonacci(first as nat, (index - 1) as nat),
            previous <= current,
            current + room <= MAX_NANOS,
        decreases retries - 1 - index,
    {
        let next = if index == 0 {
            first
        } else {
            current + previous
        };
        if next + room > MAX_NANOS {
            proof {
                lemma_fibonacci_grows(first as nat, (index + 1) as nat, (retries - 1) as nat);
            }
            return false;
        }
        previous = current;
        current = next;
        index = index + 1;
    }
    true
}

/// A series of delays that grow like the Fibonacci numbers up to a longest delay, with or
/// without jitter.
///
/// backon's generator lets a delay pass the longest delay once, and stops the growth
/// only then. To hold each delay at the bound, the series runs a second generator with
/// the same settings but without jitter: it tells what the delay before jitter was, and
/// whatever of that is above the bound is taken off.
#[derive(Debug)]
pub struct FibonacciSeries {
    jittered: FibonacciBackoff,
    magnitudes: FibonacciBackoff,
    max_delay: Nullable<Duration>,
}

impl View for FibonacciSeries {
    type V = FibonacciModel;

    closed spec fn view(&self) -> FibonacciModel {
        fibonacci_model(self.jittered)
    }
}

impl FibonacciSeries {
    /// Whether the series is consistent, and every delay of it, jitter included, a length
    /// that a `Duration` can have.
    pub closed spec fn wf(&self) -> bool {
        &&& self@.in_range()
        &&& self@.jitter_fits()
        &&& self@.max_delay == match self.max_delay {
            Nullable::Value(max_delay) => Some(duration_nanos(max_delay)),
            Nullable::Null => None,
        }
        &&& fibonacci_model(self.magnitudes) == (FibonacciModel {
            jitter: false,
            rng: fibonacci_model(self.magnitudes).rng,
            ..self@
        })
    }

    /// Starts the series that `jittered` describes. `magnitudes` has the same settings
    /// without the jitter, and `max_delay` is the longest delay of both.
    pub(crate) fn start(
        jittered: FibonacciBuilder,
        magnitudes: FibonacciBuilder,
        max_delay: Nullable<Duration>,
    ) -> (series: FibonacciSeries)
        requires
            fibonacci_settings(magnitudes) == (FibonacciSettings {
                jitter: false,
                seed: fibonacci_settings(magnitudes).seed,
                ..fibonacci_settings(jittered)
            }),
            fibonacci_settings(jittered).max_delay == match max_delay {
                Nullable::Value(max_delay) => Some(duration_nanos(max_delay)),
                Nullable::Null => None,
            },
            fibonacci_settings(jittered).started(0).jitter_fits(),
        ensures
            series.wf(),
            series@ == fibonacci_settings(jittered).started(series@.rng),
            fibonacci_settings(jittered).seed matches Some(seed) ==> series@.rng == seed,
    {
        FibonacciSeries {
            jittered: fibonacci_build(jittered),
            magnitudes: fibonacci_build(magnitudes),
            max_delay,
        }
    }

    /// Hands out the next delay, or `None` once as many delays as the series has were
    /// handed out.
    pub fn next(&mut self) -> (delay: Option<Duration>)
        requires
            old(self).wf(),
        ensures
            final(self).wf(),
            final(self)@ == old(self)@.step().1,
            match delay {
                Some(d) => old(self)@.step().0 == Some(duration_nanos(d)),
                None => old(self)@.step().0 is None,
            },
            delay matches Some(d) ==> old(self)@.capped_magnitude() <= duration_nanos(d)
                <= old(self)@.capped_magnitude() + jitter_limit(old(self)@.min_delay),
    {
        proof {
            let before = self@;
            if before.attempts < before.limit() {
                lemma_fibonacci_grows(
                    before.min_delay,
                    before.attempts,
                    (before.limit() - 1) as nat,
                );
                if before.attempts >= 1 {
                    lemma_fibonacci_grows(
                        before.min_delay,
                        (before.attempts - 1) as nat,
                        before.attempts + 1,
                    );
                }
            }
        }
        let magnitude = fibonacci_next(&mut self.magnitudes);
        let jittered = fibonacci_next(&mut self.jittered);
        match (jittered, magnitude) {
            (Some(jittered), Some(magnitude)) => {
                match self.max_delay {
                    Nullable::Value(max_delay) => {
                        Some(jittered.saturating_sub(magnitude.saturating_sub(max_delay)))
                    },
                    Nullable::Null => Some(jittered),
                }
            },
            _ => None,
        }
    }
}

} // verus!
