//! The frame-loop state machine.
//!
//! The embedder owns the OS event loop, the graphics device and the window;
//! this module owns every decision the loop makes. Each iteration the
//! embedder drains pending events ([`crate::events::drain_events`]), notes a
//! close request, asks whether a swapchain resize is needed, performs the
//! resize itself if so, records its outcome, and reads the frame delta off
//! the clock — all through the functions here, whose contracts pin the loop's
//! behaviour down:
//!
//! - a close request ends the loop only at the top of the next iteration, so
//!   the iteration that saw it still updates, renders and presents once;
//! - a resize is attempted exactly when a drained candidate size or factor
//!   differs (exact equality, no tolerance) from the last known one;
//! - the known size and factor record every attempt, successful or not, so an
//!   unchanged size is not retried; the size and factor of the targets the
//!   application holds record only the successful attempts.
//!
//! [`run_loop`] composes the same decisions over a pre-recorded script of
//! per-iteration inputs, which is what the loop-level laws and tests are
//! stated against.

use vstd::prelude::*;

use crate::events::drain_events;
use crate::events::forwarded_payloads;
use crate::events::handled;
use crate::events::has_close;
use crate::events::last_resize;
use crate::events::last_scale_change;
use crate::events::WindowEvent;
use crate::geometry::LogicalSize;
use crate::geometry::ScaleFactor;

verus! {

/// The driver's long-lived state: the loop flag, the last size and factor a
/// resize was attempted for, the size and factor of the targets the
/// application currently holds, and the previous frame's timestamp.
#[derive(Clone, Copy, Debug, PartialEq, Eq, Structural)]
pub struct LoopState {
    /// False once a close request has been observed.
    pub running: bool,
    /// The last-known logical size: updated by every resize attempt.
    pub known_size: LogicalSize,
    /// The last-known scale factor: updated by every resize attempt.
    pub known_hidpi_factor: ScaleFactor,
    /// The logical size of the targets the application holds: updated only
    /// when a resize attempt succeeds.
    pub current_size: LogicalSize,
    /// The scale factor of the targets the application holds: updated only
    /// when a resize attempt succeeds.
    pub current_hidpi_factor: ScaleFactor,
    /// When the previous frame's update was taken, in nanoseconds of the
    /// embedder's monotonic clock.
    pub last_frame_nanos: u64,
}

impl LoopState {
    /// The state right after initialization: running, with the window's
    /// initial size and factor both known and current, and the clock started.
    pub fn start(size: LogicalSize, hidpi_factor: ScaleFactor, start_nanos: u64) -> (r: Self)
        ensures
            r == LoopState::start_spec(size, hidpi_factor, start_nanos),
    {
        LoopState {
            running: true,
            known_size: size,
            known_hidpi_factor: hidpi_factor,
            current_size: size,
            current_hidpi_factor: hidpi_factor,
            last_frame_nanos: start_nanos,
        }
    }

    pub open spec fn start_spec(size: LogicalSize, hidpi_factor: ScaleFactor, start_nanos: u64) -> Self {
        LoopState {
            running: true,
            known_size: size,
            known_hidpi_factor: hidpi_factor,
            current_size: size,
            current_hidpi_factor: hidpi_factor,
            last_frame_nanos: start_nanos,
        }
    }

    /// Note whether the drain saw a close request: once seen, the loop flag
    /// stays down. Nothing else changes — the iteration itself goes on.
    pub fn observe_close(&mut self, close_requested: bool)
        ensures
            *final(self) == (LoopState { running: old(self).running && !close_requested, ..*old(self) }),
    {
        if close_requested {
            self.running = false;
        }
    }

    /// Whether drained candidates call for a swapchain resize: some candidate
    /// differs — by exact equality, no tolerance — from the last known value.
    pub open spec fn resize_needed_spec(
        self,
        new_size: Option<LogicalSize>,
        new_hidpi_factor: Option<ScaleFactor>,
    ) -> bool {
        ||| new_size matches Some(size) && size != self.known_size
        ||| new_hidpi_factor matches Some(factor) && factor != self.known_hidpi_factor
    }

    pub fn resize_needed(
        &self,
        new_size: Option<LogicalSize>,
        new_hidpi_factor: Option<ScaleFactor>,
    ) -> (r: bool)
        ensures
            r == self.resize_needed_spec(new_size, new_hidpi_factor),
    {
        let size_changed = match new_size {
            Some(size) => size != self.known_size,
            None => false,
        };
        let hidpi_factor_changed = match new_hidpi_factor {
            Some(factor) => factor != self.known_hidpi_factor,
            None => false,
        };
        size_changed || hidpi_factor_changed
    }

    /// Record a resize attempt at `size` and `hidpi_factor`. The known pair
    /// always moves to the attempted values — a failed attempt is not retried
    /// until the pair changes again — while the current pair moves only when
    /// the attempt succeeded, since the application keeps its old targets
    /// otherwise.
    pub fn record_resize(&mut self, size: LogicalSize, hidpi_factor: ScaleFactor, succeeded: bool)
        ensures
            *final(self) == (LoopState {
                known_size: size,
                known_hidpi_factor: hidpi_factor,
                current_size: if succeeded { size } else { old(self).current_size },
                current_hidpi_factor: if succeeded {
                    hidpi_factor
                } else {
                    old(self).current_hidpi_factor
                },
                ..*old(self)
            }),
    {
        self.known_size = size;
        self.known_hidpi_factor = hidpi_factor;
        if succeeded {
            self.current_size = size;
            self.current_hidpi_factor = hidpi_factor;
        }
    }

    /// Advance the frame clock to `now_nanos` and return the elapsed
    /// nanoseconds since the previous frame — never negative, and zero if the
    /// clock ever reads backwards.
    pub fn tick(&mut self, now_nanos: u64) -> (delta: u64)
        ensures
            *final(self) == (LoopState { last_frame_nanos: now_nanos, ..*old(self) }),
            delta == LoopState::delta_spec(old(self).last_frame_nanos, now_nanos),
    {
        let delta = if now_nanos >= self.last_frame_nanos {
            now_nanos - self.last_frame_nanos
        } else {
            0
        };
        self.last_frame_nanos = now_nanos;
        delta
    }

    pub open spec fn delta_spec(last_nanos: u64, now_nanos: u64) -> u64 {
        if now_nanos >= last_nanos {
            (now_nanos - last_nanos) as u64
        } else {
            0
        }
    }
}

/// A drained candidate where one was seen, else the fallback the embedder
/// read off the window itself.
pub fn resolve_candidate<T>(candidate: Option<T>, fallback: T) -> (r: T)
    ensures
        r == (match candidate {
            Some(value) => value,
            None => fallback,
        }),
{
    match candidate {
        Some(value) => value,
        None => fallback,
    }
}

/// Everything one loop iteration takes in from outside: the drained events,
/// what the window reports as its size and factor when asked, whether the
/// backend's swapchain resize succeeds if attempted, and the clock reading.
#[derive(Debug)]
pub struct IterationInput<E> {
    pub events: Vec<WindowEvent<E>>,
    pub queried_size: LogicalSize,
    pub queried_hidpi_factor: ScaleFactor,
    pub resize_succeeds: bool,
    pub now_nanos: u64,
}

/// What one completed iteration did. One record stands for exactly one full
/// frame: one update call (with `update_delta_nanos`), then one render, one
/// flush and one present.
#[derive(Debug)]
pub struct FrameRecord<E> {
    /// The events handed on to the application, in order.
    pub forwarded: Vec<E>,
    /// The size and factor a swapchain resize was attempted for, if any.
    pub resize_attempted: Option<(LogicalSize, ScaleFactor)>,
    /// The attempt succeeded, so the application received new targets.
    pub resize_applied: bool,
    /// The elapsed nanoseconds the application's update was called with.
    pub update_delta_nanos: u64,
}

/// The last resize candidate this iteration's drain produced.
pub open spec fn drained_size<E>(input: IterationInput<E>) -> Option<LogicalSize> {
    last_resize(handled(input.events@))
}

/// The last scale-factor candidate this iteration's drain produced.
pub open spec fn drained_factor<E>(input: IterationInput<E>) -> Option<ScaleFactor> {
    last_scale_change(handled(input.events@))
}

/// Whether this iteration attempts a swapchain resize.
pub open spec fn step_attempts<E>(state: LoopState, input: IterationInput<E>) -> bool {
    state.resize_needed_spec(drained_size(input), drained_factor(input))
}

/// The size an attempted resize is made at.
pub open spec fn attempted_size<E>(input: IterationInput<E>) -> LogicalSize {
    match drained_size(input) {
        Some(size) => size,
        None => input.queried_size,
    }
}

/// The factor an attempted resize is made at.
pub open spec fn attempted_factor<E>(input: IterationInput<E>) -> ScaleFactor {
    match drained_factor(input) {
        Some(factor) => factor,
        None => input.queried_hidpi_factor,
    }
}

/// Whether this iteration attempts a resize and the attempt succeeds.
pub open spec fn step_applies<E>(state: LoopState, input: IterationInput<E>) -> bool {
    step_attempts(state, input) && input.resize_succeeds
}

/// The driver state after one iteration on `input`.
pub open spec fn step_state<E>(state: LoopState, input: IterationInput<E>) -> LoopState {
    LoopState {
        running: state.running && !has_close(input.events@),
        known_size: if step_attempts(state, input) {
            attempted_size(input)
        } else {
            state.known_size
        },
        known_hidpi_factor: if step_attempts(state, input) {
            attempted_factor(input)
        } else {
            state.known_hidpi_factor
        },
        current_size: if step_applies(state, input) {
            attempted_size(input)
        } else {
            state.current_size
        },
        current_hidpi_factor: if step_applies(state, input) {
            attempted_factor(input)
        } else {
            state.current_hidpi_factor
        },
        last_frame_nanos: input.now_nanos,
    }
}

/// One full loop iteration over pre-drained outside inputs: drain the events,
/// observe any close request, attempt a resize where the candidates differ
/// from the known pair, record the attempt's outcome, and advance the frame
/// clock. A close request never short-circuits the iteration: the returned
/// record still carries its one update delta, and the frame is still
/// rendered and presented by the embedder.
pub fn frame_step<E>(state: &mut LoopState, input: IterationInput<E>) -> (r: FrameRecord<E>)
    requires
        old(state).running,
    ensures
        *final(state) == step_state(*old(state), input),
        r.forwarded@ == forwarded_payloads(handled(input.events@)),
        r.resize_attempted == (if step_attempts(*old(state), input) {
            Some((attempted_size(input), attempted_factor(input)))
        } else {
            None::<(LogicalSize, ScaleFactor)>
        }),
        r.resize_applied == step_applies(*old(state), input),
        r.update_delta_nanos == LoopState::delta_spec(old(state).last_frame_nanos, input.now_nanos),
{
    let IterationInput { events, queried_size, queried_hidpi_factor, resize_succeeds, now_nanos } =
        input;

    let drained = drain_events(events);
    state.observe_close(drained.close_requested);

    let resize_attempted: Option<(LogicalSize, ScaleFactor)>;
    let resize_applied: bool;
    if state.resize_needed(drained.new_size, drained.new_hidpi_factor) {
        let size = resolve_candidate(drained.new_size, queried_size);
        let hidpi_factor = resolve_candidate(drained.new_hidpi_factor, queried_hidpi_factor);
        state.record_resize(size, hidpi_factor, resize_succeeds);
        resize_attempted = Some((size, hidpi_factor));
        resize_applied = resize_succeeds;
    } else {
        resize_attempted = None;
        resize_applied = false;
    }

    let update_delta_nanos = state.tick(now_nanos);

    FrameRecord { forwarded: drained.forwarded, resize_attempted, resize_applied, update_delta_nanos }
}

/// The driver state after the first `n` of the scripted iterations.
pub open spec fn state_after<E>(
    start: LoopState,
    inputs: Seq<IterationInput<E>>,
    n: int,
) -> LoopState
    decreases n,
{
    if n <= 0 {
        start
    } else {
        step_state(state_after(start, inputs, n - 1), inputs[n - 1])
    }
}

/// No iteration before the `n`-th sees a close request.
pub open spec fn no_close_before<E>(inputs: Seq<IterationInput<E>>, n: int) -> bool {
    forall|j: int| 0 <= j < n ==> !has_close(#[trigger] inputs[j].events@)
}

/// How many of the scripted iterations a run executes: everything up to and
/// including the first that sees a close request, or all of them.
pub open spec fn run_len<E>(inputs: Seq<IterationInput<E>>) -> int
    decreases inputs.len(),
{
    if inputs.len() == 0 {
        0
    } else if has_close(inputs[0].events@) {
        1
    } else {
        1 + run_len(inputs.drop_first())
    }
}

/// `run_len` counts up to and including the first close-carrying iteration.
pub proof fn lemma_run_len_at_close<E>(inputs: Seq<IterationInput<E>>, k: int)
    requires
        0 <= k < inputs.len(),
        no_close_before(inputs, k),
        has_close(inputs[k].events@),
    ensures
        run_len(inputs) == k + 1,
    decreases k,
{
    if k == 0 {
    } else {
        let t = inputs.drop_first();
        assert(forall|j: int| 0 <= j < k - 1 ==> t[j] == inputs[j + 1]);
        assert(t[k - 1] == inputs[k]);
        lemma_run_len_at_close(t, k - 1);
    }
}

/// Without a close request, every scripted iteration runs.
pub proof fn lemma_run_len_no_close<E>(inputs: Seq<IterationInput<E>>)
    requires
        no_close_before(inputs, inputs.len() as int),
    ensures
        run_len(inputs) == inputs.len(),
    decreases inputs.len(),
{
    if inputs.len() > 0 {
        let t = inputs.drop_first();
        assert(forall|j: int| 0 <= j < t.len() ==> t[j] == inputs[j + 1]);
        lemma_run_len_no_close(t);
    }
}

/// Drive the loop over a pre-recorded script of per-iteration inputs, from a
/// freshly started state. Iterations run while the loop flag is up: the
/// iteration that sees a close request is still executed in full — its frame
/// record is the last — and with no close request the whole script runs. The
/// returned log holds exactly one frame record per executed iteration.
pub fn run_loop<E>(
    initial_size: LogicalSize,
    initial_hidpi_factor: ScaleFactor,
    start_nanos: u64,
    inputs: Vec<IterationInput<E>>,
) -> (r: (LoopState, Vec<FrameRecord<E>>))
    ensures
        ({
            let start = LoopState::start_spec(initial_size, initial_hidpi_factor, start_nanos);
            let all = inputs@;
            &&& r.1@.len() == run_len(all)
            &&& r.0 == state_after(start, all, run_len(all))
            &&& forall|i: int| 0 <= i < run_len(all) ==> {
                let before = state_after(start, all, i);
                &&& (#[trigger] r.1@[i]).forwarded@ == forwarded_payloads(handled(all[i].events@))
                &&& r.1@[i].resize_attempted == (if step_attempts(before, all[i]) {
                    Some((attempted_size(all[i]), attempted_factor(all[i])))
                } else {
                    None::<(LogicalSize, ScaleFactor)>
                })
                &&& r.1@[i].resize_applied == step_applies(before, all[i])
                &&& r.1@[i].update_delta_nanos == LoopState::delta_spec(
                    before.last_frame_nanos,
                    all[i].now_nanos,
                )
            }
        }),
{
    let ghost all = inputs@;
    let mut rest = inputs;
    let mut state = LoopState::start(initial_size, initial_hidpi_factor, start_nanos);
    let ghost start = state;
    let mut log: Vec<FrameRecord<E>> = Vec::new();
    let ghost mut i: int = 0;

    while state.running && rest.len() > 0
        invariant
            0 <= i <= all.len(),
            rest@ == all.skip(i),
            state == state_after(start, all, i),
            start == LoopState::start_spec(initial_size, initial_hidpi_factor, start_nanos),
            log@.len() == i,
            state.running ==> no_close_before(all, i),
            !state.running ==> {
                &&& 1 <= i
                &&& has_close(all[i - 1].events@)
                &&& no_close_before(all, i - 1)
            },
            forall|j: int| 0 <= j < i ==> {
                let before = state_after(start, all, j);
                &&& (#[trigger] log@[j]).forwarded@ == forwarded_payloads(handled(all[j].events@))
                &&& log@[j].resize_attempted == (if step_attempts(before, all[j]) {
                    Some((attempted_size(all[j]), attempted_factor(all[j])))
                } else {
                    None::<(LogicalSize, ScaleFactor)>
                })
                &&& log@[j].resize_applied == step_applies(before, all[j])
                &&& log@[j].update_delta_nanos == LoopState::delta_spec(
                    before.last_frame_nanos,
                    all[j].now_nanos,
                )
            },
        decreases rest.len(),
    {
        let input = rest.remove(0);
        proof {
            assert(all.skip(i).remove(0) =~= all.skip(i + 1));
            assert(input == all[i]);
        }
        let record = frame_step(&mut state, input);
        log.push(record);
        proof {
            i = i + 1;
        }
    }

    proof {
        if state.running {
            assert(rest@.len() == 0);
            assert(all.skip(i).len() == all.len() - i);
            assert(i == all.len());
            lemma_run_len_no_close(all);
        } else {
            lemma_run_len_at_close(all, i - 1);
        }
    }

    (state, log)
}

} // verus!
