//! Laws of the Fibonacci backoff.
use crate::backoff::BackoffModel;
use crate::backoff_config::{within_retries, BackoffConfig, FibonacciBackoffConfig};
use crate::duration::{duration_nanos, in_range, max_nanos};
use crate::nullable::Nullable;
use crate::outside::fibonacci::FibonacciModel;
use crate::series::fibonacci::{lemma_fibonacci_grows, scaled_fibonacci};
use vstd::prelude::*;

verus! {

/// The shorter of two lengths.
pub open spec fn at_most(delay: nat, bound: nat) -> nat {
    if delay <= bound {
        delay
    } else {
        bound
    }
}

proof fn lemma_fibonacci_step(initial: nat, index: nat)
    ensures
        initial <= scaled_fibonacci(initial, index) <= scaled_fibonacci(initial, index + 1),
{
    lemma_fibonacci_grows(initial, index, index + 1);
}

/// Whether `model` is the state that `calls` calls leave of a series without jitter that
/// started from `start`. While the delays are below the longest delay, the state holds
/// the last two of them; after that it holds one that has reached the longest delay.
spec fn reached(start: FibonacciModel, model: FibonacciModel, calls: nat) -> bool {
    let counted = if calls < start.limit() {
        calls
    } else {
        start.limit()
    };
    &&& model == (FibonacciModel {
        attempts: counted,
        current_delay: model.current_delay,
        previous_delay: model.previous_delay,
        ..start
    })
    &&& counted == 0 ==> model.current_delay is None && model.previous_delay is None
    &&& counted >= 1 ==> if scaled_fibonacci(start.min_delay, (counted - 1) as nat)
        < start.ceiling() {
        &&& model.current_delay == Some(scaled_fibonacci(start.min_delay, (counted - 1) as nat))
        &&& model.previous_delay == if counted >= 2 {
            Some(scaled_fibonacci(start.min_delay, (counted - 2) as nat))
        } else {
            None
        }
    } else {
        model.current_delay matches Some(current) && start.ceiling() <= current <= max_nanos()
    }
}

/// Whether a series has handed out nothing yet, has no jitter, and starts below its
/// longest delay.
spec fn fresh(start: FibonacciModel) -> bool {
    &&& !start.jitter
    &&& start.attempts == 0
    &&& start.current_delay is None
    &&& start.previous_delay is None
    &&& start.min_delay <= start.ceiling() <= max_nanos()
}

proof fn lemma_fibonacci_after(start: FibonacciModel, calls: nat)
    requires
        fresh(start),
    ensures
        BackoffModel::Fibonacci(start).after(calls) matches BackoffModel::Fibonacci(model)
            && reached(start, model, calls),
    decreases calls,
{
    if calls > 0 {
        lemma_fibonacci_after(start, (calls - 1) as nat);
        if calls - 1 < start.limit() && calls >= 2 {
            lemma_fibonacci_step(start.min_delay, (calls - 2) as nat);
        }
    }
}

/// The delay that a series without jitter hands out after `calls` calls, if it has one
/// left: the Fibonacci number of that index in units of the first delay, held at the
/// longest delay.
proof fn lemma_fibonacci_outcome(start: FibonacciModel, calls: nat)
    requires
        fresh(start),
    ensures
        BackoffModel::Fibonacci(start).outcome(calls) == if calls < start.limit() {
            Some(at_most(scaled_fibonacci(start.min_delay, calls), start.ceiling()))
        } else {
            None
        },
{
    lemma_fibonacci_after(start, calls);
    if calls >= 1 {
        lemma_fibonacci_step(start.min_delay, (calls - 1) as nat);
    }
}

/// A Fibonacci backoff without jitter hands out the initial delay twice and from there
/// on the sum of the last two delays, each held at the maximum delay, or at the longest
/// `Duration` where there is no maximum delay: as many delays as it has retries, and
/// `None` from then on.
pub proof fn law_fibonacci_delays(config: FibonacciBackoffConfig, entropy: u64, calls: nat)
    requires
        !config.jitter_enabled,
        in_range(config.initial_delay),
        config.max_delay matches Nullable::Value(max_delay) ==> in_range(max_delay),
    ensures
        BackoffConfig::Fibonacci(config).initial_model(entropy).outcome(calls) == if within_retries(
            config.max_retries,
            calls,
        ) {
            Some(
                at_most(
                    scaled_fibonacci(duration_nanos(config.initial_delay), calls),
                    config.initial_model(entropy).ceiling(),
                ),
            )
        } else {
            None
        },
{
    let start = config.initial_model(entropy);
    lemma_fibonacci_outcome(start, calls);
    lemma_fibonacci_step(start.min_delay, calls);
    lemma_fibonacci_step(duration_nanos(config.initial_delay), calls);
}

} // verus!
