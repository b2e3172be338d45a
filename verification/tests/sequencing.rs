use lcard_dac_signal_generator::cycles::{CycleAction, CycleEnd, CycleEvent, CyclePhase, CycleState};

/// Runs `n` cycles; `pause_polls` is how many polls each pause takes
/// before it has elapsed; `stop_at_poll` raises the stop flag at that
/// poll of the stop flag or of a pause (counted together).
fn run(
    n: usize,
    pause: bool,
    pause_polls: usize,
    stop_at_poll: Option<usize>,
    fail_cycle: Option<usize>,
) -> (Vec<usize>, usize, CycleAction) {
    let (mut s, mut a) = CycleState::start(n, pause, Ok(()));
    let mut ran = Vec::new();
    let mut pauses = 0;
    let mut polls = 0;
    let mut pause_left = 0;
    loop {
        let event = match &a {
            CycleAction::PollStop => {
                polls += 1;
                CycleEvent::StopFlag(stop_at_poll == Some(polls))
            }
            CycleAction::RunCycle(i) => {
                ran.push(*i);
                if fail_cycle == Some(*i) {
                    CycleEvent::CycleResult(Err(format!("cycle {} failed", i)))
                } else {
                    CycleEvent::CycleResult(Ok(()))
                }
            }
            CycleAction::StartPause | CycleAction::SleepAndPoll => {
                if matches!(a, CycleAction::StartPause) {
                    pauses += 1;
                    pause_left = pause_polls;
                }
                polls += 1;
                let elapsed = pause_left == 0;
                if pause_left > 0 {
                    pause_left -= 1;
                }
                CycleEvent::PauseStatus { elapsed, stop_requested: stop_at_poll == Some(polls) }
            }
            CycleAction::Finish(_) | CycleAction::Fail(_) => return (ran, pauses, a),
        };
        assert!(s.accepts_event(&event));
        a = s.step(event);
    }
}

#[test]
fn runs_every_cycle_in_order_with_pauses_between() {
    let (ran, pauses, end) = run(3, true, 2, None, None);
    assert_eq!(ran, vec![0, 1, 2]);
    assert_eq!(pauses, 2);
    assert_eq!(end, CycleAction::Finish(CycleEnd::Completed));
}

#[test]
fn no_pause_when_not_requested() {
    let (ran, pauses, end) = run(4, false, 2, None, None);
    assert_eq!(ran, vec![0, 1, 2, 3]);
    assert_eq!(pauses, 0);
    assert_eq!(end, CycleAction::Finish(CycleEnd::Completed));
}

#[test]
fn single_cycle_never_pauses() {
    let (ran, pauses, end) = run(1, true, 2, None, None);
    assert_eq!(ran, vec![0]);
    assert_eq!(pauses, 0);
    assert_eq!(end, CycleAction::Finish(CycleEnd::Completed));
}

#[test]
fn stop_before_a_cycle_aborts_in_transition() {
    let (ran, _, end) = run(3, false, 0, Some(2), None);
    assert_eq!(ran, vec![0]);
    assert_eq!(end, CycleAction::Finish(CycleEnd::AbortedDuringTransition));
}

#[test]
fn stop_during_pause_aborts_the_pause() {
    // polls: 1 = stop flag before cycle 0, 2 = first pause status, 3 = second
    let (ran, pauses, end) = run(3, true, 5, Some(3), None);
    assert_eq!(ran, vec![0]);
    assert_eq!(pauses, 1);
    assert_eq!(end, CycleAction::Finish(CycleEnd::AbortedDuringPause));
}

#[test]
fn failing_cycle_ends_sequence_with_its_error() {
    let (ran, _, end) = run(3, false, 0, None, Some(1));
    assert_eq!(ran, vec![0, 1]);
    assert_eq!(end, CycleAction::Fail("cycle 1 failed".to_string()));
}

#[test]
fn invalid_parameters_fail_before_any_cycle() {
    let (s, a) = CycleState::start(2, true, Err("At least one cycle step is required".to_string()));
    assert_eq!(s.current().phase, CyclePhase::Failed);
    assert_eq!(a, CycleAction::Fail("At least one cycle step is required".to_string()));
}
