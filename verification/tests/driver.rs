use gfx_window_any::driver::frame_step;
use gfx_window_any::driver::run_loop;
use gfx_window_any::driver::IterationInput;
use gfx_window_any::driver::LoopState;
use gfx_window_any::events::WindowEvent;
use gfx_window_any::geometry::LogicalSize;
use gfx_window_any::geometry::ScaleFactor;

const SIZE_0: LogicalSize = LogicalSize { width: 640 * 65536, height: 480 * 65536 };
const SIZE_A: LogicalSize = LogicalSize { width: 800 * 65536, height: 600 * 65536 };
const SIZE_B: LogicalSize = LogicalSize { width: 1024 * 65536, height: 768 * 65536 };
const ONE: ScaleFactor = ScaleFactor { units: 65536 };
const TWO: ScaleFactor = ScaleFactor { units: 131072 };

fn quiet_input(now_nanos: u64) -> IterationInput<u32> {
    IterationInput {
        events: vec![],
        queried_size: SIZE_0,
        queried_hidpi_factor: ONE,
        resize_succeeds: true,
        now_nanos,
    }
}

fn input_with(events: Vec<WindowEvent<u32>>, succeeds: bool, now_nanos: u64) -> IterationInput<u32> {
    IterationInput {
        events,
        queried_size: SIZE_0,
        queried_hidpi_factor: ONE,
        resize_succeeds: succeeds,
        now_nanos,
    }
}

#[test]
fn resize_needed_compares_exactly() {
    let state = LoopState::start(SIZE_0, ONE, 0);
    assert!(!state.resize_needed(None, None));
    assert!(!state.resize_needed(Some(SIZE_0), None));
    assert!(!state.resize_needed(None, Some(ONE)));
    assert!(!state.resize_needed(Some(SIZE_0), Some(ONE)));
    assert!(state.resize_needed(Some(SIZE_A), None));
    assert!(state.resize_needed(None, Some(TWO)));
    // One subunit off is a change: the comparison has no tolerance.
    let nudged = ScaleFactor { units: ONE.units + 1 };
    assert!(state.resize_needed(None, Some(nudged)));
}

#[test]
fn scale_factor_sequence_resizes_once() {
    // Factors 1.0, 1.0, 2.0, 2.0 across four iterations: the swapchain is
    // resized exactly once, at the transition.
    let factors = [ONE, ONE, TWO, TWO];
    let mut inputs: Vec<IterationInput<u32>> = Vec::new();
    for (i, f) in factors.iter().enumerate() {
        inputs.push(input_with(vec![WindowEvent::HiDpiFactorChanged(*f)], true, i as u64));
    }
    let (state, log) = run_loop(SIZE_0, ONE, 0, inputs);
    assert_eq!(log.len(), 4);
    assert_eq!(log[0].resize_attempted, None);
    assert_eq!(log[1].resize_attempted, None);
    assert_eq!(log[2].resize_attempted, Some((SIZE_0, TWO)));
    assert_eq!(log[3].resize_attempted, None);
    assert!(log[2].resize_applied);
    assert_eq!(state.current_hidpi_factor, TWO);
    assert_eq!(state.known_hidpi_factor, TWO);
}

#[test]
fn failed_resize_keeps_targets_and_is_not_retried() {
    let mut state = LoopState::start(SIZE_0, ONE, 0);

    // The resize attempt fails: the application's targets keep their pair.
    let r = frame_step(&mut state, input_with(vec![WindowEvent::Resized(SIZE_A)], false, 10));
    assert_eq!(r.resize_attempted, Some((SIZE_A, ONE)));
    assert!(!r.resize_applied);
    assert_eq!(state.current_size, SIZE_0);
    assert_eq!(state.current_hidpi_factor, ONE);
    // But the pair is now known, so an unchanged size is not retried.
    assert_eq!(state.known_size, SIZE_A);
    let r = frame_step(&mut state, input_with(vec![WindowEvent::Resized(SIZE_A)], true, 20));
    assert_eq!(r.resize_attempted, None);
    assert_eq!(state.current_size, SIZE_0);

    // The next change is attempted again, and on success the targets move.
    let r = frame_step(&mut state, input_with(vec![WindowEvent::Resized(SIZE_B)], true, 30));
    assert_eq!(r.resize_attempted, Some((SIZE_B, ONE)));
    assert!(r.resize_applied);
    assert_eq!(state.current_size, SIZE_B);
}

#[test]
fn targets_track_last_successful_resize() {
    // Success at A, failure at B: the targets stay at A while the known pair
    // moves to B.
    let inputs = vec![
        input_with(vec![WindowEvent::Resized(SIZE_A)], true, 1),
        input_with(vec![WindowEvent::Resized(SIZE_B)], false, 2),
        quiet_input(3),
    ];
    let (state, log) = run_loop(SIZE_0, ONE, 0, inputs);
    assert_eq!(log.len(), 3);
    assert!(log[0].resize_applied);
    assert!(!log[1].resize_applied);
    assert_eq!(log[2].resize_attempted, None);
    assert_eq!(state.current_size, SIZE_A);
    assert_eq!(state.known_size, SIZE_B);
}

#[test]
fn close_iteration_still_completes_then_loop_exits() {
    // The close request arrives in the second iteration, with events after
    // it in the same drain: that iteration still produces its one frame
    // record (so its update, render and present still happen), nothing after
    // the close request is forwarded, and the third iteration never runs.
    let inputs = vec![
        input_with(vec![WindowEvent::Other(1)], true, 10),
        input_with(
            vec![WindowEvent::Other(2), WindowEvent::CloseRequested, WindowEvent::Other(3)],
            true,
            20,
        ),
        input_with(vec![WindowEvent::Other(4)], true, 30),
    ];
    let (state, log) = run_loop(SIZE_0, ONE, 0, inputs);
    assert_eq!(log.len(), 2);
    assert_eq!(log[0].forwarded, vec![1]);
    assert_eq!(log[1].forwarded, vec![2]);
    assert_eq!(log[1].update_delta_nanos, 10);
    assert!(!state.running);
}

#[test]
fn first_frame_delta_is_elapsed_since_start() {
    // The clock starts at initialization; the first frame's delta is the
    // time since then, and the loop runs without any earlier frame existing.
    let (_, log) = run_loop::<u32>(SIZE_0, ONE, 5_000, vec![quiet_input(7_500)]);
    assert_eq!(log.len(), 1);
    assert_eq!(log[0].update_delta_nanos, 2_500);
}

#[test]
fn frame_deltas_follow_the_clock() {
    let inputs = vec![quiet_input(100), quiet_input(250), quiet_input(600)];
    let (state, log) = run_loop::<u32>(SIZE_0, ONE, 0, inputs);
    assert_eq!(log[0].update_delta_nanos, 100);
    assert_eq!(log[1].update_delta_nanos, 150);
    assert_eq!(log[2].update_delta_nanos, 350);
    assert_eq!(state.last_frame_nanos, 600);
}

#[test]
fn backwards_clock_yields_zero_delta() {
    let mut state = LoopState::start(SIZE_0, ONE, 1_000);
    let delta = state.tick(400);
    assert_eq!(delta, 0);
    assert_eq!(state.last_frame_nanos, 400);
}
