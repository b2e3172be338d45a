use lcard_dac_signal_generator::stream::{
    interleaved_fill_plan, overlapped_outcome, FillPlan, OverlappedOutcome, StreamAction,
    StreamEvent, StreamFailure, StreamPhase, StreamState, StreamView, DATA_STEP_WORDS,
};

const PAIRS: usize = DATA_STEP_WORDS / 2;

#[test]
fn fill_plan_splits_signal_and_idle() {
    assert_eq!(interleaved_fill_plan(32768, 0, 100), FillPlan { signal_pairs: 100, idle_pairs: 16284 });
    assert_eq!(interleaved_fill_plan(32768, 0, 1_000_000), FillPlan { signal_pairs: 16384, idle_pairs: 0 });
    assert_eq!(interleaved_fill_plan(32768, 100, 100), FillPlan { signal_pairs: 0, idle_pairs: 16384 });
    assert_eq!(interleaved_fill_plan(7, 0, 10), FillPlan { signal_pairs: 3, idle_pairs: 0 });
    assert_eq!(interleaved_fill_plan(32768, 16384, 20000), FillPlan { signal_pairs: 3616, idle_pairs: 12768 });
}

/// Drives the loop with a device that completes buffers alternately.
/// Returns the actions taken and the signal pairs filled.
fn simulate(total: u64, stop_after_waits: Option<usize>) -> (Vec<StreamAction>, u64, StreamView) {
    let (mut state, mut action) = StreamState::start(total);
    let mut actions = Vec::new();
    let mut filled: u64 = 0;
    let mut queue: Vec<usize> = Vec::new();
    let mut waits = 0usize;
    loop {
        actions.push(action.clone());
        let event = match &action {
            StreamAction::Fill { plan, .. } => {
                filled += plan.signal_pairs as u64;
                StreamEvent::Succeeded
            }
            StreamAction::Write(b) => {
                queue.push(*b);
                StreamEvent::Succeeded
            }
            StreamAction::StartDac => StreamEvent::Succeeded,
            StreamAction::PollStop => StreamEvent::StopFlag(stop_after_waits == Some(waits)),
            StreamAction::WaitAny => {
                waits += 1;
                StreamEvent::WaitResult(queue.remove(0) as u32)
            }
            StreamAction::AwaitCompletion(_) => StreamEvent::Succeeded,
            StreamAction::Finish | StreamAction::Fail(_) => return (actions, filled, state.current()),
        };
        assert!(state.accepts_event(&event));
        action = state.step(event);
    }
}

#[test]
fn short_run_streams_every_pair_once() {
    let (actions, filled, state) = simulate(100, None);
    assert_eq!(filled, 100);
    assert_eq!(state.pairs_generated, 100);
    assert_eq!(state.phase, StreamPhase::Finished);
    assert!(!state.stopped);
    assert_eq!(
        actions[..5].to_vec(),
        vec![
            StreamAction::Fill { buffer: 0, plan: FillPlan { signal_pairs: 100, idle_pairs: PAIRS - 100 } },
            StreamAction::Fill { buffer: 1, plan: FillPlan { signal_pairs: 0, idle_pairs: PAIRS } },
            StreamAction::Write(0),
            StreamAction::StartDac,
            StreamAction::Write(1),
        ]
    );
    assert_eq!(actions.last(), Some(&StreamAction::Finish));
}

#[test]
fn long_run_refills_until_all_pairs_written() {
    let total = 5 * PAIRS as u64 + 17;
    let (actions, filled, state) = simulate(total, None);
    assert_eq!(filled, total);
    assert_eq!(state.pairs_generated, total);
    let fills = actions.iter().filter(|a| matches!(a, StreamAction::Fill { .. })).count();
    assert_eq!(fills, 6);
    assert_eq!(actions.last(), Some(&StreamAction::Finish));
}

#[test]
fn stop_flag_ends_loop_early() {
    let total = 10 * PAIRS as u64;
    let (actions, filled, state) = simulate(total, Some(3));
    assert!(state.stopped);
    assert!(filled < total);
    assert_eq!(actions.last(), Some(&StreamAction::Finish));
}

#[test]
fn failures_are_reported_with_their_messages() {
    let (mut s, _) = StreamState::start(10);
    s.step(StreamEvent::Succeeded);
    s.step(StreamEvent::Succeeded);
    assert_eq!(s.step(StreamEvent::Failed), StreamAction::Fail(StreamFailure::InitialWriteFirst));

    let (mut s, _) = StreamState::start(10);
    s.step(StreamEvent::Succeeded);
    s.step(StreamEvent::Succeeded);
    s.step(StreamEvent::Succeeded);
    assert_eq!(s.step(StreamEvent::Failed), StreamAction::Fail(StreamFailure::StartDac));

    let (mut s, _) = StreamState::start(10);
    for _ in 0..4 {
        s.step(StreamEvent::Succeeded);
    }
    assert_eq!(s.step(StreamEvent::Failed), StreamAction::Fail(StreamFailure::InitialWriteSecond));

    let (mut s, _) = StreamState::start(10);
    for _ in 0..5 {
        s.step(StreamEvent::Succeeded);
    }
    assert_eq!(s.step(StreamEvent::StopFlag(false)), StreamAction::WaitAny);
    assert_eq!(s.step(StreamEvent::WaitResult(0x102)), StreamAction::Fail(StreamFailure::WaitFailed));

    assert_eq!(StreamFailure::InitialWriteFirst.message(), "Initial WriteData(requests[0]) failed");
    assert_eq!(StreamFailure::StartDac.message(), "START_DAC() failed");
    assert_eq!(StreamFailure::InitialWriteSecond.message(), "Initial WriteData(requests[1]) failed");
    assert_eq!(StreamFailure::WaitFailed.message(), "WaitForMultipleObjects() failed");
    assert_eq!(StreamFailure::WriteInLoop.message(), "WriteData() in streaming loop failed");
    assert_eq!(StreamFailure::Completion("boom".to_string()).message(), "boom");
}

#[test]
fn completion_failure_and_rewrite_failure() {
    let total = 3 * PAIRS as u64;
    let (mut s, _) = StreamState::start(total);
    for _ in 0..5 {
        s.step(StreamEvent::Succeeded);
    }
    s.step(StreamEvent::StopFlag(false));
    assert_eq!(s.step(StreamEvent::WaitResult(1)), StreamAction::AwaitCompletion(1));
    assert_eq!(
        s.step(StreamEvent::CompletionFailed("GetOverlappedResult() failed: x".to_string())),
        StreamAction::Fail(StreamFailure::Completion("GetOverlappedResult() failed: x".to_string()))
    );

    let (mut s, _) = StreamState::start(total);
    for _ in 0..5 {
        s.step(StreamEvent::Succeeded);
    }
    s.step(StreamEvent::StopFlag(false));
    s.step(StreamEvent::WaitResult(0));
    assert_eq!(
        s.step(StreamEvent::Succeeded),
        StreamAction::Fill { buffer: 0, plan: FillPlan { signal_pairs: PAIRS, idle_pairs: 0 } }
    );
    assert_eq!(s.step(StreamEvent::Succeeded), StreamAction::Write(0));
    assert_eq!(s.step(StreamEvent::Failed), StreamAction::Fail(StreamFailure::WriteInLoop));
}

#[test]
fn overlapped_results() {
    assert_eq!(overlapped_outcome(Ok(64)), OverlappedOutcome::Completed(32));
    assert_eq!(overlapped_outcome(Ok(65537)), OverlappedOutcome::Completed(32768));
    assert_eq!(overlapped_outcome(Err(0x800703E4u32 as i32)), OverlappedOutcome::Pending);
    assert_eq!(overlapped_outcome(Err(996)), OverlappedOutcome::Pending);
    assert_eq!(overlapped_outcome(Err(0x80070006u32 as i32)), OverlappedOutcome::Failed);
}
