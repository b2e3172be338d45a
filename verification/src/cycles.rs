//! Running a sequence of generation cycles, with optional pauses between
//! them, that a stop request can cut short.
//!
//! The caller performs each [`CycleAction`] (poll the stop flag, run one
//! cycle, pause) and hands the outcome back as a [`CycleEvent`].
use vstd::prelude::*;

verus! {

#[derive(Clone, Copy, Debug, PartialEq, Eq)]
pub enum CyclePhase {
    /// The stop flag is being read before the next cycle.
    CheckingStop,
    /// The current cycle is running.
    Running,
    /// The pause after the current cycle is under way.
    Pausing,
    Completed,
    Aborted,
    Failed,
}

/// How a sequence that did not fail ended.
#[derive(Clone, Copy, Debug, PartialEq, Eq)]
pub enum CycleEnd {
    /// Every cycle ran.
    Completed,
    /// A stop request came between two cycles.
    AbortedDuringTransition,
    /// A stop request came during a pause.
    AbortedDuringPause,
}

#[derive(Clone, Debug, PartialEq, Eq)]
pub enum CycleAction {
    /// Read the stop flag.
    PollStop,
    /// Run cycle `i` (counting from zero).
    RunCycle(usize),
    /// Announce the pause, start its clock and report its status.
    StartPause,
    /// Sleep a short while and report the pause's status again.
    SleepAndPoll,
    /// The sequence is over.
    Finish(CycleEnd),
    /// The sequence failed with this message.
    Fail(String),
}

#[derive(Debug, PartialEq, Eq)]
pub enum CycleEvent {
    StopFlag(bool),
    /// The outcome of a cycle.
    CycleResult(Result<(), String>),
    /// Whether the pause has lasted long enough, and the stop flag.
    PauseStatus { elapsed: bool, stop_requested: bool },
}

/// Where a sequence of cycles stands: the view of a [`CycleState`].
#[derive(Clone, Copy, Debug, PartialEq, Eq)]
pub struct CycleView {
    pub phase: CyclePhase,
    /// The current cycle; the number of cycles that have run successfully.
    pub index: usize,
    pub num_steps: usize,
    /// Whether a positive pause separates consecutive cycles.
    pub pause_requested: bool,
}

pub open spec fn cycle_accepts(phase: CyclePhase, event: CycleEvent) -> bool {
    match phase {
        CyclePhase::CheckingStop => event is StopFlag,
        CyclePhase::Running => event is CycleResult,
        CyclePhase::Pausing => event is PauseStatus,
        _ => false,
    }
}

impl CycleView {
    /// Move past the cycle that just ran: on to the next one, or done.
    pub open spec fn advance(self) -> (CycleView, CycleAction) {
        if self.index + 1 < self.num_steps {
            (CycleView { phase: CyclePhase::CheckingStop, index: (self.index + 1) as usize, ..self }, CycleAction::PollStop)
        } else {
            (CycleView { phase: CyclePhase::Completed, index: (self.index + 1) as usize, ..self }, CycleAction::Finish(CycleEnd::Completed))
        }
    }

    /// The state and first action for `num_steps` cycles, once the
    /// parameters were validated with `validation`.
    pub open spec fn initial(num_steps: usize, pause_requested: bool, validation: Result<(), String>) -> (CycleView, CycleAction) {
        let s = CycleView { phase: CyclePhase::CheckingStop, index: 0, num_steps, pause_requested };
        match validation {
            Err(e) => (CycleView { phase: CyclePhase::Failed, ..s }, CycleAction::Fail(e)),
            Ok(()) => if num_steps == 0 {
                (CycleView { phase: CyclePhase::Completed, ..s }, CycleAction::Finish(CycleEnd::Completed))
            } else {
                (s, CycleAction::PollStop)
            },
        }
    }

    /// One step of the sequence: the state after `event` and the next
    /// action; `None` when `event` is no outcome of the last action (in
    /// particular once the sequence has ended).
    pub open spec fn next(self, event: CycleEvent) -> Option<(CycleView, CycleAction)> {
        match (self.phase, event) {
            (CyclePhase::CheckingStop, CycleEvent::StopFlag(stop)) => if stop {
                Some((CycleView { phase: CyclePhase::Aborted, ..self }, CycleAction::Finish(CycleEnd::AbortedDuringTransition)))
            } else {
                Some((CycleView { phase: CyclePhase::Running, ..self }, CycleAction::RunCycle(self.index)))
            },
            (CyclePhase::Running, CycleEvent::CycleResult(result)) => match result {
                Err(e) => Some((CycleView { phase: CyclePhase::Failed, ..self }, CycleAction::Fail(e))),
                Ok(()) => if self.index + 1 < self.num_steps && self.pause_requested {
                    Some((CycleView { phase: CyclePhase::Pausing, ..self }, CycleAction::StartPause))
                } else {
                    Some(self.advance())
                },
            },
            (CyclePhase::Pausing, CycleEvent::PauseStatus { elapsed, stop_requested }) =>
                if elapsed {
                    Some(self.advance())
                } else if stop_requested {
                    Some((CycleView { phase: CyclePhase::Aborted, ..self }, CycleAction::Finish(CycleEnd::AbortedDuringPause)))
                } else {
                    Some((self, CycleAction::SleepAndPoll))
                },
            _ => None,
        }
    }

    /// What holds of every state the sequence reaches: the current cycle
    /// exists, pauses only come between two cycles, and a completed
    /// sequence ran every cycle.
    pub open spec fn inv(self) -> bool {
        &&& self.index <= self.num_steps
        &&& (self.phase is CheckingStop || self.phase is Running) ==> self.index < self.num_steps
        &&& self.phase is Pausing ==> self.index + 1 < self.num_steps && self.pause_requested
        &&& self.phase is Completed ==> self.index == self.num_steps
    }

    fn exec_advance(&self) -> (r: (CycleView, CycleAction))
        requires
            self.index < self.num_steps,
        ensures
            r == self.advance(),
    {
        if self.index + 1 < self.num_steps {
            (CycleView { phase: CyclePhase::CheckingStop, index: self.index + 1, ..*self }, CycleAction::PollStop)
        } else {
            (CycleView { phase: CyclePhase::Completed, index: self.index + 1, ..*self }, CycleAction::Finish(CycleEnd::Completed))
        }
    }

    fn exec_next(&self, event: CycleEvent) -> (r: (CycleView, CycleAction))
        requires
            self.inv(),
            cycle_accepts(self.phase, event),
        ensures
            self.next(event) == Some(r),
            r.0.inv(),
    {
        let (s, a) = match (self.phase, event) {
            (CyclePhase::CheckingStop, CycleEvent::StopFlag(stop)) => if stop {
                (CycleView { phase: CyclePhase::Aborted, ..*self }, CycleAction::Finish(CycleEnd::AbortedDuringTransition))
            } else {
                (CycleView { phase: CyclePhase::Running, ..*self }, CycleAction::RunCycle(self.index))
            },
            (CyclePhase::Running, CycleEvent::CycleResult(Err(e))) =>
                (CycleView { phase: CyclePhase::Failed, ..*self }, CycleAction::Fail(e)),
            (CyclePhase::Running, CycleEvent::CycleResult(Ok(()))) =>
                if self.index + 1 < self.num_steps && self.pause_requested {
                    (CycleView { phase: CyclePhase::Pausing, ..*self }, CycleAction::StartPause)
                } else {
                    self.exec_advance()
                },
            (CyclePhase::Pausing, CycleEvent::PauseStatus { elapsed, stop_requested }) =>
                if elapsed {
                    self.exec_advance()
                } else if stop_requested {
                    (CycleView { phase: CyclePhase::Aborted, ..*self }, CycleAction::Finish(CycleEnd::AbortedDuringPause))
                } else {
                    (*self, CycleAction::SleepAndPoll)
                },
            _ => unreached(),
        };
        (s, a)
    }
}

/// A sequence of cycles. Only [`CycleState::start`] and
/// [`CycleState::step`] make and change one, so its view always satisfies
/// [`CycleView::inv`].
pub struct CycleState {
    state: CycleView,
}

impl View for CycleState {
    type V = CycleView;

    closed spec fn view(&self) -> CycleView {
        self.state
    }
}

impl CycleState {
    #[verifier::type_invariant]
    spec fn well_formed(self) -> bool {
        self.state.inv()
    }

    /// Starts a sequence of `num_steps` cycles. `pause_requested` says
    /// whether a positive pause separates consecutive cycles, `validation`
    /// is the outcome of checking the parameters.
    pub fn start(num_steps: usize, pause_requested: bool, validation: Result<(), String>) -> (r: (CycleState, CycleAction))
        ensures
            (r.0@, r.1) == CycleView::initial(num_steps, pause_requested, validation),
            r.0@.inv(),
    {
        let s = CycleView { phase: CyclePhase::CheckingStop, index: 0, num_steps, pause_requested };
        match validation {
            Err(e) => (CycleState { state: CycleView { phase: CyclePhase::Failed, ..s } }, CycleAction::Fail(e)),
            Ok(()) => if num_steps == 0 {
                (CycleState { state: CycleView { phase: CyclePhase::Completed, ..s } }, CycleAction::Finish(CycleEnd::Completed))
            } else {
                (CycleState { state: s }, CycleAction::PollStop)
            },
        }
    }

    /// Where the sequence stands.
    pub fn current(&self) -> (v: CycleView)
        ensures
            v == self@,
    {
        self.state
    }

    /// Whether `event` is an outcome the last action can have.
    pub fn accepts_event(&self, event: &CycleEvent) -> (b: bool)
        ensures
            b == cycle_accepts(self@.phase, *event),
    {
        match self.state.phase {
            CyclePhase::CheckingStop => matches!(event, CycleEvent::StopFlag(_)),
            CyclePhase::Running => matches!(event, CycleEvent::CycleResult(_)),
            CyclePhase::Pausing => matches!(event, CycleEvent::PauseStatus { .. }),
            _ => false,
        }
    }

    /// Takes the outcome of the last action and returns the next one.
    pub fn step(&mut self, event: CycleEvent) -> (action: CycleAction)
        requires
            cycle_accepts(old(self)@.phase, event),
        ensures
            old(self)@.next(event) == Some((final(self)@, action)),
            final(self)@.inv(),
    {
        proof {
            use_type_invariant(&*self);
        }
        let (s, a) = self.state.exec_next(event);
        self.state = s;
        a
    }
}

/// The cycles run in order: after cycle `i` runs successfully, the next
/// cycle to run is `i + 1`, or the sequence is complete when `i` was the
/// last; and a pause never follows the last cycle.
pub proof fn lemma_cycles_run_in_order(s: CycleView, event: CycleEvent)
    requires
        s.inv(),
        s.phase is Running,
        event matches CycleEvent::CycleResult(Ok(())),
    ensures
        s.next(event) is Some,
        s.next(event) matches Some((t, a)) ==> {
            &&& a is StartPause ==> s.index + 1 < s.num_steps
            &&& a is PollStop ==> t.index == s.index + 1
            &&& a == CycleAction::Finish(CycleEnd::Completed) ==> s.index + 1 == s.num_steps
        },
{
}

/// A stop request during a pause ends the sequence, unless the pause has
/// already lasted long enough; a pause that has lasted long enough leads to
/// the next cycle.
pub proof fn lemma_pause_ends_on_stop_or_time(s: CycleView, stop_requested: bool)
    requires
        s.inv(),
        s.phase is Pausing,
    ensures
        stop_requested ==> s.next(CycleEvent::PauseStatus { elapsed: false, stop_requested })
            == Some((CycleView { phase: CyclePhase::Aborted, ..s }, CycleAction::Finish(CycleEnd::AbortedDuringPause))),
        !stop_requested ==> s.next(CycleEvent::PauseStatus { elapsed: false, stop_requested })
            == Some((s, CycleAction::SleepAndPoll)),
        s.next(CycleEvent::PauseStatus { elapsed: true, stop_requested }) matches Some((t, a))
            && a == CycleAction::PollStop && t.index == s.index + 1,
{
}

/// A sequence reported complete has run every one of its cycles.
pub proof fn lemma_completed_sequence_ran_all(s: CycleView)
    requires
        s.inv(),
        s.phase is Completed,
    ensures
        s.index == s.num_steps,
{
}

} // verus!
