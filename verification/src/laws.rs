//! Loop-level laws: what holds of the driver state after any sequence of
//! iterations, proved once and for all over the scripted model of
//! [`crate::driver::run_loop`].

use vstd::prelude::*;

use crate::driver::attempted_factor;
use crate::driver::attempted_size;
use crate::driver::no_close_before;
use crate::driver::run_len;
use crate::driver::state_after;
use crate::driver::step_applies;
use crate::driver::step_attempts;
use crate::driver::IterationInput;
use crate::driver::LoopState;
use crate::events::has_close;

verus! {

/// The index of the last iteration before the `n`-th whose resize attempt
/// succeeded, or -1 if none did.
pub open spec fn last_applied_index<E>(
    start: LoopState,
    inputs: Seq<IterationInput<E>>,
    n: int,
) -> int
    decreases n,
{
    if n <= 0 {
        -1
    } else if step_applies(state_after(start, inputs, n - 1), inputs[n - 1]) {
        n - 1
    } else {
        last_applied_index(start, inputs, n - 1)
    }
}

/// The index of the last iteration before the `n`-th that attempted a
/// resize at all, or -1 if none did.
pub open spec fn last_attempted_index<E>(
    start: LoopState,
    inputs: Seq<IterationInput<E>>,
    n: int,
) -> int
    decreases n,
{
    if n <= 0 {
        -1
    } else if step_attempts(state_after(start, inputs, n - 1), inputs[n - 1]) {
        n - 1
    } else {
        last_attempted_index(start, inputs, n - 1)
    }
}

/// After any interleaving of resize and scale-factor changes, the size and
/// factor of the targets the application holds are those of the most recent
/// iteration whose resize attempt succeeded — not necessarily the most
/// recent attempt, since a failed attempt leaves the prior targets in use —
/// and the initial pair if no attempt ever succeeded.
pub proof fn lemma_current_pair_tracks_last_success<E>(
    start: LoopState,
    inputs: Seq<IterationInput<E>>,
    n: int,
)
    requires
        0 <= n <= inputs.len(),
    ensures
        ({
            let j = last_applied_index(start, inputs, n);
            let state = state_after(start, inputs, n);
            &&& (j == -1 ==> state.current_size == start.current_size
                && state.current_hidpi_factor == start.current_hidpi_factor)
            &&& (j >= 0 ==> state.current_size == attempted_size(inputs[j])
                && state.current_hidpi_factor == attempted_factor(inputs[j]))
        }),
    decreases n,
{
    if n > 0 {
        lemma_current_pair_tracks_last_success(start, inputs, n - 1);
    }
}

/// The last-known pair tracks every attempt, successful or not: after any
/// iterations it equals the pair of the most recent resize attempt, or the
/// initial pair if none was made. A failed attempt is therefore not retried
/// while the observed size and factor stay the same.
pub proof fn lemma_known_pair_tracks_last_attempt<E>(
    start: LoopState,
    inputs: Seq<IterationInput<E>>,
    n: int,
)
    requires
        0 <= n <= inputs.len(),
    ensures
        ({
            let j = last_attempted_index(start, inputs, n);
            let state = state_after(start, inputs, n);
            &&& (j == -1 ==> state.known_size == start.known_size
                && state.known_hidpi_factor == start.known_hidpi_factor)
            &&& (j >= 0 ==> state.known_size == attempted_size(inputs[j])
                && state.known_hidpi_factor == attempted_factor(inputs[j]))
        }),
    decreases n,
{
    if n > 0 {
        lemma_known_pair_tracks_last_attempt(start, inputs, n - 1);
    }
}

/// A failed resize attempt leaves the pair of the application's targets
/// exactly as it was: only a successful attempt moves it.
pub proof fn lemma_failed_resize_keeps_targets<E>(state: LoopState, input: IterationInput<E>)
    requires
        !step_applies(state, input),
    ensures
        crate::driver::step_state(state, input).current_size == state.current_size,
        crate::driver::step_state(state, input).current_hidpi_factor
            == state.current_hidpi_factor,
{
}

/// A close request observed in iteration `k` ends the run right after that
/// iteration: the run executes exactly `k + 1` iterations, so the iteration
/// that saw the request still completes — with one frame record, hence one
/// update, render, flush and present — and no later iteration runs.
pub proof fn lemma_close_ends_run_after_full_iteration<E>(
    inputs: Seq<IterationInput<E>>,
    k: int,
)
    requires
        0 <= k < inputs.len(),
        no_close_before(inputs, k),
        has_close(inputs[k].events@),
    ensures
        run_len(inputs) == k + 1,
{
    crate::driver::lemma_run_len_at_close(inputs, k);
}

/// A run over a script with no close request executes every iteration.
pub proof fn lemma_no_close_runs_whole_script<E>(inputs: Seq<IterationInput<E>>)
    requires
        no_close_before(inputs, inputs.len() as int),
    ensures
        run_len(inputs) == inputs.len(),
{
    crate::driver::lemma_run_len_no_close(inputs);
}

} // verus!
