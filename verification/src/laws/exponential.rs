//! Laws of the exponential backoff.
use crate::backoff::BackoffModel;
use crate::backoff_config::{
    delay_bound, within_retries, BackoffConfig, ExponentialBackoffConfig,
};
use crate::duration::{duration_nanos, in_range, max_nanos};
use crate::nullable::Nullable;
use crate::outside::exponential::{scaled_nanos, ExponentialModel};
use crate::series::exponential::ExponentialState;
use core::time::Duration;
use vstd::prelude::*;

verus! {

/// The state that `calls` calls leave of a series without jitter and without budget that
/// started from `generator`.
spec fn reached(generator: ExponentialModel, calls: nat) -> ExponentialState {
    let counted = if calls < generator.limit() {
        calls
    } else {
        generator.limit()
    };
    ExponentialState {
        generator: ExponentialModel {
            attempts: counted,
            current_delay: if counted == 0 {
                None
            } else {
                Some(generator.magnitude_at((counted - 1) as nat))
            },
            ..generator
        },
        exhausted: calls > generator.limit(),
        attempt_index: counted,
    }
}

proof fn lemma_exponential_after(generator: ExponentialModel, calls: nat)
    requires
        !generator.jitter,
        generator.total_delay is None,
        generator.current_delay is None,
        generator.attempts == 0,
    ensures
        BackoffModel::Exponential(
            ExponentialState { generator, exhausted: false, attempt_index: 0 },
        ).after(calls) == BackoffModel::Exponential(reached(generator, calls)),
    decreases calls,
{
    if calls > 0 {
        lemma_exponential_after(generator, (calls - 1) as nat);
        let before = reached(generator, (calls - 1) as nat);
        if calls - 1 < generator.limit() && calls - 1 > 0 {
            assert(before.generator.magnitude() == generator.magnitude_at((calls - 1) as nat));
        }
    }
}

/// The delay that a growth by the factor whose bits are `factor` comes to after `calls`
/// steps from a delay of `initial` nanoseconds, with nothing to bound it but the length
/// that a `Duration` can have.
pub open spec fn grown(initial: nat, factor: nat, calls: nat) -> nat
    decreases calls,
{
    if calls == 0 {
        initial
    } else {
        scaled_nanos(grown(initial, factor, (calls - 1) as nat), factor)
    }
}

proof fn lemma_unbounded_magnitude(generator: ExponentialModel, calls: nat)
    requires
        generator.max_delay is None,
    ensures
        generator.magnitude_at(calls) == grown(generator.min_delay, generator.factor, calls),
    decreases calls,
{
    if calls > 0 {
        lemma_unbounded_magnitude(generator, (calls - 1) as nat);
    }
}

/// An exponential backoff without jitter and without maximum total delay hands out the
/// delays of its growth, each held at the maximum delay: as many as it has retries, and
/// `None` from then on.
pub proof fn law_exponential_delays(config: ExponentialBackoffConfig, entropy: u64, calls: nat)
    requires
        !config.jitter_enabled,
        config.max_total_delay is Null,
    ensures
        BackoffConfig::Exponential(config).initial_model(entropy).outcome(calls) == if within_retries(
            config.max_retries,
            calls,
        ) {
            Some(config.initial_model(entropy).generator.magnitude_at(calls))
        } else {
            None
        },
{
    let generator = config.initial_model(entropy).generator;
    lemma_exponential_after(generator, calls);
    if 0 < calls < generator.limit() {
        assert(reached(generator, calls).generator.magnitude() == generator.magnitude_at(calls));
    }
}

/// An exponential backoff without jitter and without any maximum delay hands out the
/// initial delay, the initial delay times the factor, that times the factor, and so on: as
/// many delays as it has retries, and `None` from then on.
pub proof fn law_exponential_growth(config: ExponentialBackoffConfig, entropy: u64, calls: nat)
    requires
        !config.jitter_enabled,
        config.max_delay is Null,
        config.max_total_delay is Null,
    ensures
        BackoffConfig::Exponential(config).initial_model(entropy).outcome(calls) == if within_retries(
            config.max_retries,
            calls,
        ) {
            Some(grown(duration_nanos(config.initial_delay), config.factor.code(), calls))
        } else {
            None
        },
{
    law_exponential_delays(config, entropy, calls);
    lemma_unbounded_magnitude(config.initial_model(entropy).generator, calls);
}

/// Whether a series without jitter keeps its delays at `max_delay` nanoseconds.
spec fn bounded(state: ExponentialState, max_delay: nat) -> bool {
    &&& !state.generator.jitter
    &&& state.generator.max_delay == Some(max_delay)
    &&& state.generator.min_delay <= max_delay
    &&& state.generator.current_delay matches Some(current) ==> current <= max_delay
}

proof fn lemma_stays_bounded(state: ExponentialState, max_delay: nat, calls: nat)
    requires
        bounded(state, max_delay),
    ensures
        BackoffModel::Exponential(state).after(calls) matches BackoffModel::Exponential(after)
            && bounded(after, max_delay),
    decreases calls,
{
    if calls > 0 {
        lemma_stays_bounded(state, max_delay, (calls - 1) as nat);
    }
}

/// No delay of an exponential backoff without jitter is longer than the maximum delay.
pub proof fn law_exponential_max_delay(
    config: ExponentialBackoffConfig,
    max_delay: Duration,
    entropy: u64,
    calls: nat,
)
    requires
        !config.jitter_enabled,
        config.max_delay == Nullable::Value(max_delay),
    ensures
        BackoffConfig::Exponential(config).initial_model(entropy).outcome(calls) matches Some(delay)
            ==> delay <= duration_nanos(max_delay),
{
    lemma_stays_bounded(config.initial_model(entropy), config.delay_cap()->0, calls);
}

/// Whether a series keeps the sum of its delays, `spent` nanoseconds so far, within a
/// budget of `total` nanoseconds.
spec fn within_budget(state: ExponentialState, total: nat, spent: nat) -> bool {
    &&& state.generator.total_delay == Some(total)
    &&& state.generator.cumulative_delay == spent
    &&& spent <= total <= max_nanos()
}

proof fn lemma_stays_within_budget(state: ExponentialState, total: nat, calls: nat)
    requires
        within_budget(state, total, 0),
    ensures
        BackoffModel::Exponential(state).after(calls) matches BackoffModel::Exponential(after)
            && within_budget(after, total, BackoffModel::Exponential(state).total(calls)),
    decreases calls,
{
    if calls > 0 {
        lemma_stays_within_budget(state, total, (calls - 1) as nat);
    }
}

/// The delays of an exponential backoff never add up to more than the maximum total
/// delay, with jitter or without.
pub proof fn law_exponential_budget(
    config: ExponentialBackoffConfig,
    max_total_delay: Duration,
    entropy: u64,
    calls: nat,
)
    requires
        config.max_total_delay == Nullable::Value(max_total_delay),
        in_range(max_total_delay),
    ensures
        BackoffConfig::Exponential(config).initial_model(entropy).total(calls) <= duration_nanos(
            max_total_delay,
        ),
{
    lemma_stays_within_budget(
        config.initial_model(entropy),
        duration_nanos(max_total_delay),
        calls,
    );
}

/// A series that has handed out a delay at each call so far has not ended, and has
/// counted the calls.
proof fn lemma_still_running(state: ExponentialState, calls: nat)
    requires
        !state.exhausted,
        state.generator.attempts == 0,
        forall|earlier: nat|
            earlier < calls ==> BackoffModel::Exponential(state).outcome(earlier) is Some,
    ensures
        BackoffModel::Exponential(state).after(calls) matches BackoffModel::Exponential(after)
            && !after.exhausted && after.generator.attempts == calls
            && after.generator.max_times == state.generator.max_times,
    decreases calls,
{
    if calls > 0 {
        lemma_still_running(state, (calls - 1) as nat);
        assert(BackoffModel::Exponential(state).outcome((calls - 1) as nat) is Some);
    }
}

/// An exponential backoff ends as soon as its next delay would take the sum of the delays
/// over the maximum total delay: after calls that each returned a delay, and with a retry
/// left, the next call returns `None` if and only if the delays so far and the delay that
/// is due come to more than the maximum total delay.
pub proof fn law_exponential_budget_ends(
    config: ExponentialBackoffConfig,
    max_total_delay: Duration,
    entropy: u64,
    calls: nat,
)
    requires
        config.max_total_delay == Nullable::Value(max_total_delay),
        in_range(max_total_delay),
        within_retries(config.max_retries, calls),
        forall|earlier: nat|
            earlier < calls ==> BackoffConfig::Exponential(config).initial_model(entropy).outcome(
                earlier,
            ) is Some,
    ensures
        BackoffConfig::Exponential(config).initial_model(entropy).outcome(calls) is None
            <==> BackoffConfig::Exponential(config).initial_model(entropy).total(calls)
            + BackoffConfig::Exponential(config).initial_model(entropy).after(calls).due()
            > duration_nanos(max_total_delay),
{
    lemma_still_running(config.initial_model(entropy), calls);
    lemma_stays_within_budget(
        config.initial_model(entropy),
        duration_nanos(max_total_delay),
        calls,
    );
}

/// Whether a series that keeps its delays at one nanosecond above its budget, `capped`,
/// and one with another longest delay or none, `plain`, agree on every delay to come.
/// They do if both have ended. They also do if they are in the same state, but for the
/// longest delay, and that state holds nothing above the budget.
spec fn agree(capped: ExponentialState, plain: ExponentialState, total: nat) -> bool {
    &&& capped.exhausted == plain.exhausted
    &&& !capped.exhausted ==> {
        &&& total < max_nanos()
        &&& capped.generator.total_delay == Some(total)
        &&& capped.generator.cumulative_delay <= total
        &&& capped.generator.current_delay matches Some(current) ==> current <= total
        &&& plain.generator.min_delay <= max_nanos()
        &&& capped.generator.min_delay == if plain.generator.min_delay <= total + 1 {
            plain.generator.min_delay
        } else {
            total + 1
        }
        &&& capped.generator.max_delay == match plain.generator.max_delay {
            Some(max_delay) if max_delay <= total + 1 => Some(max_delay),
            _ => Some((total + 1) as nat),
        }
        &&& plain.generator == (ExponentialModel {
            min_delay: plain.generator.min_delay,
            max_delay: plain.generator.max_delay,
            ..capped.generator
        })
    }
}

proof fn lemma_cap_changes_nothing(
    capped: ExponentialState,
    plain: ExponentialState,
    total: nat,
    calls: nat,
)
    requires
        agree(capped, plain, total),
    ensures
        BackoffModel::Exponential(capped).after(calls) matches BackoffModel::Exponential(
            capped_after,
        ) && BackoffModel::Exponential(plain).after(calls) matches BackoffModel::Exponential(
            plain_after,
        ) && agree(capped_after, plain_after, total),
        BackoffModel::Exponential(capped).outcome(calls) == BackoffModel::Exponential(
            plain,
        ).outcome(calls),
    decreases calls,
{
    if calls > 0 {
        lemma_cap_changes_nothing(capped, plain, total, (calls - 1) as nat);
    }
}

/// With a maximum total delay, an exponential backoff keeps its delays at one nanosecond
/// above the total where the maximum delay is longer than that, or absent. This changes
/// none of its delays: they are those of a backoff that keeps them at the maximum delay
/// only.
pub proof fn law_exponential_cap_changes_nothing(
    config: ExponentialBackoffConfig,
    max_total_delay: Duration,
    entropy: u64,
    calls: nat,
)
    requires
        config.max_total_delay == Nullable::Value(max_total_delay),
        duration_nanos(max_total_delay) < max_nanos(),
        in_range(config.initial_delay),
    ensures
        BackoffConfig::Exponential(config).initial_model(entropy).outcome(calls)
            == BackoffModel::Exponential(
            config.model_with_cap(delay_bound(config.max_delay), entropy),
        ).outcome(calls),
{
    lemma_cap_changes_nothing(
        config.initial_model(entropy),
        config.model_with_cap(delay_bound(config.max_delay), entropy),
        duration_nanos(max_total_delay),
        calls,
    );
}

} // verus!
