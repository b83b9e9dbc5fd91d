//! Laws of every backoff.
use crate::backoff::BackoffModel;
use crate::backoff_config::BackoffConfig;
use vstd::prelude::*;

verus! {

/// Calls add up: the state after `first + then` calls is the state that `then` calls
/// leave when they start from the state after `first` calls.
pub proof fn lemma_after_add(model: BackoffModel, first: nat, then: nat)
    ensures
        model.after(first + then) == model.after(first).after(then),
    decreases then,
{
    if then > 0 {
        lemma_after_add(model, first, (then - 1) as nat);
    }
}

/// A backoff that is exhausted stays exhausted, whatever number of calls follows.
proof fn lemma_exhausted_stays(model: BackoffModel, calls: nat)
    requires
        model.step().0 is None,
    ensures
        model.after(calls).step().0 is None,
    decreases calls,
{
    if calls > 0 {
        lemma_exhausted_stays(model, (calls - 1) as nat);
    }
}

/// Exhaustion is final: once a call of `next` has returned `None`, every later call
/// returns `None` too.
pub proof fn law_exhaustion_is_final(model: BackoffModel, calls: nat, later: nat)
    requires
        model.outcome(calls) is None,
        calls <= later,
    ensures
        model.outcome(later) is None,
{
    lemma_after_add(model, calls, (later - calls) as nat);
    lemma_exhausted_stays(model.after(calls), (later - calls) as nat);
}

/// The count of the attempts is the count of the delays: it goes up by one with each call
/// that returns a delay, and a call that returns `None` leaves it as it is.
pub proof fn law_attempts_count_the_delays(model: BackoffModel, calls: nat)
    ensures
        model.after(calls).attempt_index() == model.attempt_index() + model.delays(calls),
        model.outcome(calls) is None ==> model.after(calls + 1).attempt_index() == model.after(
            calls,
        ).attempt_index(),
    decreases calls,
{
    if calls > 0 {
        law_attempts_count_the_delays(model, (calls - 1) as nat);
    }
}

/// No backoff: the very first call of `next` returns `None`, and so does every other.
pub proof fn law_no_backoff_is_exhausted(entropy: u64, calls: nat)
    ensures
        BackoffConfig::NoBackoff.initial_model(entropy).outcome(calls) is None,
{
    law_exhaustion_is_final(BackoffConfig::NoBackoff.initial_model(entropy), 0, calls);
}

/// Without jitter, a call leaves the state of the random number generator alone and
/// returns what it would return with any other such state.
proof fn lemma_rng_is_idle_on_a_call(model: BackoffModel, rng: u64)
    requires
        !model.jitter(),
    ensures
        !model.step().1.jitter(),
        model.with_rng(rng).step().1 == model.step().1.with_rng(rng),
        model.with_rng(rng).step().0 == model.step().0,
{
    match model {
        BackoffModel::Constant(state) => {},
        BackoffModel::Exponential(state) => {},
        BackoffModel::Fibonacci(state) => {},
        BackoffModel::NoBackoff => {},
    }
}

/// Without jitter, the state of the random number generator changes nothing of what
/// the calls return.
proof fn lemma_rng_is_idle(model: BackoffModel, rng: u64, calls: nat)
    requires
        !model.jitter(),
    ensures
        !model.after(calls).jitter(),
        model.with_rng(rng).after(calls) == model.after(calls).with_rng(rng),
        model.with_rng(rng).outcome(calls) == model.outcome(calls),
    decreases calls,
{
    if calls > 0 {
        lemma_rng_is_idle(model, rng, (calls - 1) as nat);
        lemma_rng_is_idle_on_a_call(model.after((calls - 1) as nat), rng);
    }
    lemma_rng_is_idle_on_a_call(model.after(calls), rng);
}

/// A backoff without jitter is determined by its configuration: whatever the jitter
/// seed is, and whatever the process picks without one, the delays are the same.
pub proof fn law_without_jitter_delays_are_fixed(
    config: BackoffConfig,
    first: u64,
    second: u64,
    calls: nat,
)
    requires
        !config.jitter_enabled(),
    ensures
        config.initial_model(first).outcome(calls) == config.initial_model(second).outcome(calls),
{
    let model = config.initial_model(first);
    lemma_rng_is_idle(model, config.initial_model(second).rng(), calls);
    assert(model.with_rng(config.initial_model(second).rng()) == config.initial_model(second));
}

/// Two backoffs built from one configuration with a jitter seed agree: they start from
/// the same state, whatever the process picks, and so hand out the same delays.
pub proof fn law_seeded_backoffs_agree(config: BackoffConfig, first: u64, second: u64, calls: nat)
    requires
        config.jitter_seed() is Some,
    ensures
        config.initial_model(first) == config.initial_model(second),
        config.initial_model(first).outcome(calls) == config.initial_model(second).outcome(calls),
{
}

/// A backoff built without a jitter seed, in a process that picks `seed` in its place,
/// agrees with the backoff built from the same configuration with `seed` for its jitter
/// seed: both start from the same state, and so hand out the same delays.
pub proof fn law_seed_stands_for_entropy(config: BackoffConfig, seed: u64, entropy: u64, calls: nat)
    requires
        config.jitter_seed() is None,
    ensures
        config.initial_model(seed) == config.seeded(seed).initial_model(entropy),
        config.initial_model(seed).outcome(calls) == config.seeded(seed).initial_model(
            entropy,
        ).outcome(calls),
{
}

} // verus!
