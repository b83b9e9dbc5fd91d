//! Laws of the constant backoff.
use crate::backoff::BackoffModel;
use crate::backoff_config::{BackoffConfig, ConstantBackoffConfig};
use crate::duration::duration_nanos;
use crate::outside::constant::ConstantModel;
use crate::series::constant::ConstantState;
use vstd::prelude::*;

verus! {

/// The number of delays that `calls` calls hand out where `max_times` bounds it.
spec fn handed_out(max_times: Option<nat>, calls: nat) -> nat {
    match max_times {
        Some(max_times) if max_times < calls => max_times,
        _ => calls,
    }
}

/// Without jitter, calls change nothing of a constant backoff but the counts of the
/// delays handed out: the generator's own, which it keeps where their number is bounded,
/// and that of the series.
proof fn lemma_constant_after(state: ConstantState, calls: nat)
    requires
        !state.generator.jitter,
        state.generator.attempts == 0,
        state.attempt_index == 0,
    ensures
        BackoffModel::Constant(state).after(calls) == BackoffModel::Constant(
            ConstantState {
                generator: ConstantModel {
                    attempts: if state.generator.max_times is Some {
                        handed_out(state.generator.max_times, calls)
                    } else {
                        0
                    },
                    ..state.generator
                },
                attempt_index: handed_out(state.generator.max_times, calls),
            },
        ),
    decreases calls,
{
    if calls > 0 {
        lemma_constant_after(state, (calls - 1) as nat);
    }
}

/// A constant backoff without jitter hands out its delay again and again: as many times
/// as it has retries, and `None` from then on; without end where the retries are not
/// bounded.
pub proof fn law_constant_delays(config: ConstantBackoffConfig, entropy: u64, calls: nat)
    requires
        !config.jitter_enabled,
    ensures
        BackoffConfig::Constant(config).initial_model(entropy).outcome(calls) == if config.retries(
            calls,
        ) {
            Some(duration_nanos(config.delay))
        } else {
            None
        },
{
    lemma_constant_after(config.initial_model(entropy), calls);
}

} // verus!
