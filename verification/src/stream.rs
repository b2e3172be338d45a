//! The double-buffered streaming loop that feeds the DAC.
//!
//! Two buffers of `DATA_STEP_WORDS` interleaved samples alternate: while the
//! device plays one, the other is refilled and queued again. The decisions of
//! that loop are a state machine here: the caller performs each
//! [`StreamAction`] (fill a buffer with samples, queue it, start the DAC, poll
//! the stop flag, wait for a completion) and hands the outcome back as a
//! [`StreamEvent`].
use vstd::prelude::*;

verus! {

/// The number of 16-bit words in each of the two streaming buffers.
pub const DATA_STEP_WORDS: usize = 32768;

/// How many sample pairs a fill writes from the signal and how many it pads
/// with the idle (offset-only) level.
#[derive(Clone, Copy, Debug, PartialEq, Eq)]
pub struct FillPlan {
    pub signal_pairs: usize,
    pub idle_pairs: usize,
}

/// The number of signal pairs a fill of `pairs` pairs writes when
/// `generated` of `total` pairs have been written before.
pub open spec fn signal_pairs_for(pairs: nat, generated: nat, total: nat) -> nat {
    if generated >= total {
        0
    } else if total - generated < pairs {
        (total - generated) as nat
    } else {
        pairs
    }
}

/// Splits a buffer of `words` interleaved words into sample pairs (an odd
/// trailing word is left alone) and decides how many of them carry the
/// signal: one pair per remaining pair of the run, the rest the idle level.
pub fn interleaved_fill_plan(words: usize, pairs_generated: u64, total_pairs: u64) -> (plan: FillPlan)
    ensures
        plan.signal_pairs + plan.idle_pairs == words / 2,
        plan.signal_pairs == signal_pairs_for((words / 2) as nat, pairs_generated as nat, total_pairs as nat),
{
    let pairs = words / 2;
    let signal: usize = if pairs_generated >= total_pairs {
        0
    } else if total_pairs - pairs_generated < pairs as u64 {
        (total_pairs - pairs_generated) as usize
    } else {
        pairs
    };
    FillPlan { signal_pairs: signal, idle_pairs: pairs - signal }
}

/// Where the streaming loop stands.
#[derive(Clone, Copy, Debug, PartialEq, Eq)]
pub enum StreamPhase {
    FillingFirst,
    FillingSecond,
    WritingFirst,
    StartingDac,
    WritingSecond,
    CheckingStop,
    Waiting,
    Completing(usize),
    Refilling(usize),
    Rewriting(usize),
    Finished,
    Failed,
}

/// What went wrong when the loop gives up.
#[derive(Clone, Debug, PartialEq, Eq)]
pub enum StreamFailure {
    InitialWriteFirst,
    StartDac,
    InitialWriteSecond,
    WaitFailed,
    WriteInLoop,
    Completion(String),
}

/// The error message of a streaming failure.
pub open spec fn stream_failure_text(f: StreamFailure) -> Seq<char> {
    match f {
        StreamFailure::InitialWriteFirst => "Initial WriteData(requests[0]) failed"@,
        StreamFailure::StartDac => "START_DAC() failed"@,
        StreamFailure::InitialWriteSecond => "Initial WriteData(requests[1]) failed"@,
        StreamFailure::WaitFailed => "WaitForMultipleObjects() failed"@,
        StreamFailure::WriteInLoop => "WriteData() in streaming loop failed"@,
        StreamFailure::Completion(msg) => msg@,
    }
}

impl StreamFailure {
    /// The error message of this failure.
    pub fn message(&self) -> (s: String)
        ensures
            s@ == stream_failure_text(*self),
    {
        match self {
            StreamFailure::InitialWriteFirst => String::from_str("Initial WriteData(requests[0]) failed"),
            StreamFailure::StartDac => String::from_str("START_DAC() failed"),
            StreamFailure::InitialWriteSecond => String::from_str("Initial WriteData(requests[1]) failed"),
            StreamFailure::WaitFailed => String::from_str("WaitForMultipleObjects() failed"),
            StreamFailure::WriteInLoop => String::from_str("WriteData() in streaming loop failed"),
            StreamFailure::Completion(msg) => String::from_str(msg.as_str()),
        }
    }
}

/// The Win32 error code `ERROR_IO_INCOMPLETE`: the transfer is still running.
pub const ERROR_IO_INCOMPLETE: u32 = 996;

/// The Win32 error code carried in the low 16 bits of an HRESULT.
pub open spec fn hresult_code(hr: i32) -> int {
    hr as int % 65536
}

/// What a poll of an overlapped transfer's result means.
#[derive(Clone, Copy, Debug, PartialEq, Eq)]
pub enum OverlappedOutcome {
    /// The transfer completed after passing this many 16-bit words.
    Completed(u32),
    /// The transfer is still running: wait a moment and poll again.
    Pending,
    /// The poll failed for another reason.
    Failed,
}

/// Interprets a poll of an overlapped transfer: `Ok` with the number of
/// bytes passed, or `Err` with the HRESULT of the failure.
pub fn overlapped_outcome(result: Result<u32, i32>) -> (o: OverlappedOutcome)
    ensures
        match result {
            Ok(bytes) => o == OverlappedOutcome::Completed(bytes / 2),
            Err(hr) => o == (if hresult_code(hr) == ERROR_IO_INCOMPLETE {
                OverlappedOutcome::Pending
            } else {
                OverlappedOutcome::Failed
            }),
        },
{
    match result {
        Ok(bytes) => OverlappedOutcome::Completed(bytes / 2),
        Err(hr) => {
            let code = (hr as u32) & 0xFFFF;
            assert(code as int == hresult_code(hr)) by (bit_vector)
                requires
                    code == (hr as u32) & 0xFFFF,
            ;
            if code != ERROR_IO_INCOMPLETE {
                OverlappedOutcome::Failed
            } else {
                OverlappedOutcome::Pending
            }
        },
    }
}

/// The next piece of outside work the loop asks for.
#[derive(Clone, Debug, PartialEq, Eq)]
pub enum StreamAction {
    /// Fill buffer `buffer` with `plan.signal_pairs` signal pairs followed
    /// by `plan.idle_pairs` idle pairs.
    Fill { buffer: usize, plan: FillPlan },
    /// Queue buffer `buffer` to the device.
    Write(usize),
    /// Start the DAC.
    StartDac,
    /// Read the stop flag.
    PollStop,
    /// Wait until one of the two buffers' events is signalled.
    WaitAny,
    /// Wait until the transfer of buffer `buffer` has completed.
    AwaitCompletion(usize),
    /// The loop is over; release the events and report success.
    Finish,
    /// The loop is over; report the failure.
    Fail(StreamFailure),
}

/// The outcome of the last action.
#[derive(Clone, Debug, PartialEq, Eq)]
pub enum StreamEvent {
    /// The action succeeded (a fill always does).
    Succeeded,
    /// A write or the start of the DAC was refused by the device.
    Failed,
    /// The value of the stop flag.
    StopFlag(bool),
    /// The raw value returned by the wait on both events: `0` for the first
    /// buffer, `1` for the second, anything else is a failed wait.
    WaitResult(u32),
    /// Waiting for the completion of a transfer failed with this message.
    CompletionFailed(String),
}

/// Where the streaming loop stands: the view of a [`StreamState`].
#[derive(Clone, Copy, Debug, PartialEq, Eq)]
pub struct StreamView {
    pub phase: StreamPhase,
    /// Whether each buffer is queued to the device.
    pub active: [bool; 2],
    /// Whether every signal pair of the run has been written to a buffer.
    pub no_more_data: bool,
    /// How many signal pairs have been written to buffers so far.
    pub pairs_generated: u64,
    /// How many signal pairs the run streams.
    pub total_pairs: u64,
    /// Whether the loop ended because the stop flag was set.
    pub stopped: bool,
}

/// `active` with the flag of buffer `i` set to `value`.
pub open spec fn with_active(active: [bool; 2], i: usize, value: bool) -> [bool; 2] {
    if i == 0 {
        [value, active[1]]
    } else {
        [active[0], value]
    }
}

/// Whether `event` is an outcome that the action issued in `phase` can have.
pub open spec fn accepts(phase: StreamPhase, event: StreamEvent) -> bool {
    match phase {
        StreamPhase::FillingFirst | StreamPhase::FillingSecond | StreamPhase::Refilling(_) =>
            event is Succeeded,
        StreamPhase::WritingFirst | StreamPhase::StartingDac | StreamPhase::WritingSecond
        | StreamPhase::Rewriting(_) => event is Succeeded || event is Failed,
        StreamPhase::CheckingStop => event is StopFlag,
        StreamPhase::Waiting => event is WaitResult,
        StreamPhase::Completing(_) => event is Succeeded || event is CompletionFailed,
        StreamPhase::Finished | StreamPhase::Failed => false,
    }
}

impl StreamView {
    /// The state after buffer `i` was filled: the signal pairs of the fill
    /// are counted and `no_more_data` records whether the run is exhausted.
    pub open spec fn filled(self, i: usize, phase: StreamPhase) -> StreamView {
        let pg = self.pairs_generated + signal_pairs_for(
            (DATA_STEP_WORDS / 2) as nat,
            self.pairs_generated as nat,
            self.total_pairs as nat,
        );
        StreamView {
            phase,
            pairs_generated: pg as u64,
            no_more_data: pg >= self.total_pairs,
            ..self
        }
    }

    /// The fill action for buffer `i` in this state.
    pub open spec fn fill_action(self, i: usize) -> StreamAction {
        let signal = signal_pairs_for(
            (DATA_STEP_WORDS / 2) as nat,
            self.pairs_generated as nat,
            self.total_pairs as nat,
        );
        StreamAction::Fill {
            buffer: i,
            plan: FillPlan {
                signal_pairs: signal as usize,
                idle_pairs: (DATA_STEP_WORDS / 2 - signal) as usize,
            },
        }
    }

    /// The top of the loop: go on while a buffer is queued, else finish.
    pub open spec fn loop_top(self) -> (StreamView, StreamAction) {
        if self.active[0] || self.active[1] {
            (StreamView { phase: StreamPhase::CheckingStop, ..self }, StreamAction::PollStop)
        } else {
            (StreamView { phase: StreamPhase::Finished, ..self }, StreamAction::Finish)
        }
    }

    pub open spec fn fail(self, why: StreamFailure) -> (StreamView, StreamAction) {
        (StreamView { phase: StreamPhase::Failed, ..self }, StreamAction::Fail(why))
    }

    /// The state and action at the start of a run of `total_pairs` pairs.
    pub open spec fn initial(total_pairs: u64) -> (StreamView, StreamAction) {
        let s = StreamView {
            phase: StreamPhase::FillingFirst,
            active: [false, false],
            no_more_data: false,
            pairs_generated: 0,
            total_pairs,
            stopped: false,
        };
        (s.filled(0, StreamPhase::FillingFirst), s.fill_action(0))
    }

    /// One step of the loop: the state after `event` and the next action;
    /// `None` when `event` is no outcome of the last action (in particular
    /// once the loop has ended).
    pub open spec fn next(self, event: StreamEvent) -> Option<(StreamView, StreamAction)> {
        match (self.phase, event) {
            (StreamPhase::FillingFirst, StreamEvent::Succeeded) =>
                Some((self.filled(1, StreamPhase::FillingSecond), self.fill_action(1))),
            (StreamPhase::FillingSecond, StreamEvent::Succeeded) =>
                Some((StreamView { phase: StreamPhase::WritingFirst, ..self }, StreamAction::Write(0))),
            (StreamPhase::WritingFirst, StreamEvent::Succeeded) => Some((
                StreamView { phase: StreamPhase::StartingDac, active: [true, true], ..self },
                StreamAction::StartDac,
            )),
            (StreamPhase::WritingFirst, StreamEvent::Failed) => Some(self.fail(StreamFailure::InitialWriteFirst)),
            (StreamPhase::StartingDac, StreamEvent::Succeeded) =>
                Some((StreamView { phase: StreamPhase::WritingSecond, ..self }, StreamAction::Write(1))),
            (StreamPhase::StartingDac, StreamEvent::Failed) => Some(self.fail(StreamFailure::StartDac)),
            (StreamPhase::WritingSecond, StreamEvent::Succeeded) => Some(self.loop_top()),
            (StreamPhase::WritingSecond, StreamEvent::Failed) => Some(self.fail(StreamFailure::InitialWriteSecond)),
            (StreamPhase::CheckingStop, StreamEvent::StopFlag(true)) => Some((
                StreamView { phase: StreamPhase::Finished, stopped: true, ..self },
                StreamAction::Finish,
            )),
            (StreamPhase::CheckingStop, StreamEvent::StopFlag(false)) =>
                Some((StreamView { phase: StreamPhase::Waiting, ..self }, StreamAction::WaitAny)),
            (StreamPhase::Waiting, StreamEvent::WaitResult(code)) => if code == 0 {
                Some((StreamView { phase: StreamPhase::Completing(0), ..self }, StreamAction::AwaitCompletion(0)))
            } else if code == 1 {
                Some((StreamView { phase: StreamPhase::Completing(1), ..self }, StreamAction::AwaitCompletion(1)))
            } else {
                Some(self.fail(StreamFailure::WaitFailed))
            },
            (StreamPhase::Completing(i), StreamEvent::CompletionFailed(msg)) => Some(self.fail(StreamFailure::Completion(msg))),
            (StreamPhase::Completing(i), StreamEvent::Succeeded) => {
                let s = StreamView { active: with_active(self.active, i, false), ..self };
                if s.no_more_data {
                    Some(s.loop_top())
                } else {
                    Some((s.filled(i, StreamPhase::Refilling(i)), s.fill_action(i)))
                }
            },
            (StreamPhase::Refilling(i), StreamEvent::Succeeded) =>
                Some((StreamView { phase: StreamPhase::Rewriting(i), ..self }, StreamAction::Write(i))),
            (StreamPhase::Rewriting(i), StreamEvent::Succeeded) =>
                Some(StreamView { active: with_active(self.active, i, true), ..self }.loop_top()),
            (StreamPhase::Rewriting(_), StreamEvent::Failed) => Some(self.fail(StreamFailure::WriteInLoop)),
            _ => None,
        }
    }

    /// What holds of every state the loop can reach.
    pub open spec fn inv(self) -> bool {
        &&& self.pairs_generated <= self.total_pairs
        &&& match self.phase {
            StreamPhase::Completing(i) | StreamPhase::Refilling(i) | StreamPhase::Rewriting(i) => i < 2,
            _ => true,
        }
        &&& self.phase !is FillingFirst ==> self.no_more_data == (self.pairs_generated >= self.total_pairs)
        &&& match self.phase {
            StreamPhase::CheckingStop | StreamPhase::Waiting | StreamPhase::Completing(_) =>
                (!self.active[0] ==> self.no_more_data) && (!self.active[1] ==> self.no_more_data),
            StreamPhase::StartingDac | StreamPhase::WritingSecond => self.active[0] && self.active[1],
            StreamPhase::Refilling(i) | StreamPhase::Rewriting(i) =>
                (i != 0 && !self.active[0] ==> self.no_more_data) && (i != 1 && !self.active[1] ==> self.no_more_data),
            _ => true,
        }
        &&& (self.phase is Finished && !self.stopped) ==> self.pairs_generated == self.total_pairs
    }
}

fn set_active(active: [bool; 2], i: usize, value: bool) -> (r: [bool; 2])
    requires
        i < 2,
    ensures
        r == with_active(active, i, value),
{
    if i == 0 {
        [value, active[1]]
    } else {
        [active[0], value]
    }
}

impl StreamView {
    fn exec_filled(&self, i: usize, phase: StreamPhase) -> (r: (StreamView, StreamAction))
        requires
            self.pairs_generated <= self.total_pairs,
        ensures
            r.0 == self.filled(i, phase),
            r.1 == self.fill_action(i),
    {
        let plan = interleaved_fill_plan(DATA_STEP_WORDS, self.pairs_generated, self.total_pairs);
        let pg = self.pairs_generated + plan.signal_pairs as u64;
        (
            StreamView { phase, pairs_generated: pg, no_more_data: pg >= self.total_pairs, ..*self },
            StreamAction::Fill { buffer: i, plan },
        )
    }

    fn exec_loop_top(&self) -> (r: (StreamView, StreamAction))
        ensures
            r == self.loop_top(),
    {
        if self.active[0] || self.active[1] {
            (StreamView { phase: StreamPhase::CheckingStop, ..*self }, StreamAction::PollStop)
        } else {
            (StreamView { phase: StreamPhase::Finished, ..*self }, StreamAction::Finish)
        }
    }

    fn exec_next(&self, event: StreamEvent) -> (r: (StreamView, StreamAction))
        requires
            self.inv(),
            accepts(self.phase, event),
        ensures
            self.next(event) == Some(r),
            r.0.inv(),
    {
        proof {
            lemma_next_preserves_inv(*self, event);
        }
        let (s, a) = match (self.phase, event) {
            (StreamPhase::FillingFirst, StreamEvent::Succeeded) => self.exec_filled(1, StreamPhase::FillingSecond),
            (StreamPhase::FillingSecond, StreamEvent::Succeeded) =>
                (StreamView { phase: StreamPhase::WritingFirst, ..*self }, StreamAction::Write(0)),
            (StreamPhase::WritingFirst, StreamEvent::Succeeded) => (
                StreamView { phase: StreamPhase::StartingDac, active: [true, true], ..*self },
                StreamAction::StartDac,
            ),
            (StreamPhase::WritingFirst, StreamEvent::Failed) =>
                (StreamView { phase: StreamPhase::Failed, ..*self }, StreamAction::Fail(StreamFailure::InitialWriteFirst)),
            (StreamPhase::StartingDac, StreamEvent::Succeeded) =>
                (StreamView { phase: StreamPhase::WritingSecond, ..*self }, StreamAction::Write(1)),
            (StreamPhase::StartingDac, StreamEvent::Failed) =>
                (StreamView { phase: StreamPhase::Failed, ..*self }, StreamAction::Fail(StreamFailure::StartDac)),
            (StreamPhase::WritingSecond, StreamEvent::Succeeded) => self.exec_loop_top(),
            (StreamPhase::WritingSecond, StreamEvent::Failed) =>
                (StreamView { phase: StreamPhase::Failed, ..*self }, StreamAction::Fail(StreamFailure::InitialWriteSecond)),
            (StreamPhase::CheckingStop, StreamEvent::StopFlag(stop)) => if stop {
                (StreamView { phase: StreamPhase::Finished, stopped: true, ..*self }, StreamAction::Finish)
            } else {
                (StreamView { phase: StreamPhase::Waiting, ..*self }, StreamAction::WaitAny)
            },
            (StreamPhase::Waiting, StreamEvent::WaitResult(code)) => if code == 0 {
                (StreamView { phase: StreamPhase::Completing(0), ..*self }, StreamAction::AwaitCompletion(0))
            } else if code == 1 {
                (StreamView { phase: StreamPhase::Completing(1), ..*self }, StreamAction::AwaitCompletion(1))
            } else {
                (StreamView { phase: StreamPhase::Failed, ..*self }, StreamAction::Fail(StreamFailure::WaitFailed))
            },
            (StreamPhase::Completing(_), StreamEvent::CompletionFailed(msg)) =>
                (StreamView { phase: StreamPhase::Failed, ..*self }, StreamAction::Fail(StreamFailure::Completion(msg))),
            (StreamPhase::Completing(i), StreamEvent::Succeeded) => {
                let s = StreamView { active: set_active(self.active, i, false), ..*self };
                if s.no_more_data {
                    s.exec_loop_top()
                } else {
                    s.exec_filled(i, StreamPhase::Refilling(i))
                }
            },
            (StreamPhase::Refilling(i), StreamEvent::Succeeded) =>
                (StreamView { phase: StreamPhase::Rewriting(i), ..*self }, StreamAction::Write(i)),
            (StreamPhase::Rewriting(i), StreamEvent::Succeeded) =>
                StreamView { active: set_active(self.active, i, true), ..*self }.exec_loop_top(),
            (StreamPhase::Rewriting(_), StreamEvent::Failed) =>
                (StreamView { phase: StreamPhase::Failed, ..*self }, StreamAction::Fail(StreamFailure::WriteInLoop)),
            _ => unreached(),
        };
        (s, a)
    }
}

/// The streaming loop. Only [`StreamState::start`] and
/// [`StreamState::step`] make and change one, so its view always satisfies
/// [`StreamView::inv`].
pub struct StreamState {
    state: StreamView,
}

impl View for StreamState {
    type V = StreamView;

    closed spec fn view(&self) -> StreamView {
        self.state
    }
}

impl StreamState {
    #[verifier::type_invariant]
    spec fn well_formed(self) -> bool {
        self.state.inv()
    }

    /// Starts a run that streams `total_pairs` signal pairs: the returned
    /// action fills the first buffer.
    pub fn start(total_pairs: u64) -> (r: (StreamState, StreamAction))
        ensures
            (r.0@, r.1) == StreamView::initial(total_pairs),
            r.0@.inv(),
    {
        let s = StreamView {
            phase: StreamPhase::FillingFirst,
            active: [false, false],
            no_more_data: false,
            pairs_generated: 0,
            total_pairs,
            stopped: false,
        };
        let (v, a) = s.exec_filled(0, StreamPhase::FillingFirst);
        (StreamState { state: v }, a)
    }

    /// Where the loop stands.
    pub fn current(&self) -> (v: StreamView)
        ensures
            v == self@,
    {
        self.state
    }

    /// Whether `event` is an outcome the last action can have.
    pub fn accepts_event(&self, event: &StreamEvent) -> (b: bool)
        ensures
            b == accepts(self@.phase, *event),
    {
        match self.state.phase {
            StreamPhase::FillingFirst | StreamPhase::FillingSecond | StreamPhase::Refilling(_) =>
                matches!(event, StreamEvent::Succeeded),
            StreamPhase::WritingFirst | StreamPhase::StartingDac | StreamPhase::WritingSecond
            | StreamPhase::Rewriting(_) =>
                matches!(event, StreamEvent::Succeeded) || matches!(event, StreamEvent::Failed),
            StreamPhase::CheckingStop => matches!(event, StreamEvent::StopFlag(_)),
            StreamPhase::Waiting => matches!(event, StreamEvent::WaitResult(_)),
            StreamPhase::Completing(_) =>
                matches!(event, StreamEvent::Succeeded) || matches!(event, StreamEvent::CompletionFailed(_)),
            StreamPhase::Finished | StreamPhase::Failed => false,
        }
    }

    /// Takes the outcome of the last action and returns the next one.
    pub fn step(&mut self, event: StreamEvent) -> (action: StreamAction)
        requires
            accepts(old(self)@.phase, event),
        ensures
            old(self)@.next(event) == Some((final(self)@, action)),
            final(self)@.inv(),
    {
        proof {
            use_type_invariant(&*self);
        }
        let (s, a) = self.state.exec_next(event);
        self.state = s;
        a
    }
}

/// The loop's invariant holds of every state it reaches: a step from a state
/// that satisfies it, on an outcome the last action can have, leads to a
/// state that satisfies it again. With [`StreamState::start`] establishing it,
/// the signal pairs written never exceed the run's total, and a run that
/// finishes without being stopped has written all of them.
pub proof fn lemma_next_preserves_inv(s: StreamView, event: StreamEvent)
    requires
        s.inv(),
        accepts(s.phase, event),
    ensures
        s.next(event) matches Some((t, _)) && t.inv(),
{
    let half = (DATA_STEP_WORDS / 2) as nat;
    let sig = signal_pairs_for(half, s.pairs_generated as nat, s.total_pairs as nat);
    assert(s.pairs_generated + sig <= s.total_pairs);
    match s.phase {
        StreamPhase::Completing(i) => {
            let a = with_active(s.active, i, false);
            assert(a[0] == (if i == 0 { false } else { s.active[0] }));
            assert(a[1] == (if i == 1 { false } else { s.active[1] }));
        },
        StreamPhase::Rewriting(i) => {
            let a = with_active(s.active, i, true);
            assert(a[0] == (if i == 0 { true } else { s.active[0] }));
            assert(a[1] == (if i == 1 { true } else { s.active[1] }));
        },
        _ => {},
    }
}

/// A stop request read at the top of the loop ends it at once: no further
/// buffer is filled or queued.
pub proof fn lemma_stop_request_ends_stream(s: StreamView)
    requires
        s.phase is CheckingStop,
    ensures
        s.next(StreamEvent::StopFlag(true)) matches Some((t, a)) && a == StreamAction::Finish && t.stopped
            && t.phase is Finished,
{
}

/// Double buffering: when a buffer's transfer completes while signal pairs
/// remain, that buffer is refilled and then queued again, before anything
/// else happens; the other buffer stays queued meanwhile.
pub proof fn lemma_completed_buffer_is_refilled_and_requeued(s: StreamView, i: usize)
    requires
        s.inv(),
        s.phase == StreamPhase::Completing(i),
        !s.no_more_data,
    ensures
        ({
            let (t, a) = s.next(StreamEvent::Succeeded)->0;
            &&& s.next(StreamEvent::Succeeded) is Some
            &&& a matches StreamAction::Fill { buffer, .. } && buffer == i
            &&& t.phase == StreamPhase::Refilling(i)
            &&& t.next(StreamEvent::Succeeded) matches Some((_, b)) && b == StreamAction::Write(i)
            &&& t.active[1 - i as int]
        }),
{
    assert(i < 2);
}

/// The loop never ends while a buffer is still queued to the device, unless
/// a stop was requested: every step that ends the loop without a stop
/// leaves both buffers idle, and every step that leaves a buffer queued
/// keeps the loop going. So every queued buffer plays before the run ends.
pub proof fn lemma_no_finish_while_buffer_queued(s: StreamView, event: StreamEvent)
    requires
        s.inv(),
        accepts(s.phase, event),
    ensures
        s.next(event) matches Some((t, a)) ==> {
            &&& (a == StreamAction::Finish && !t.stopped) ==> (!t.active[0] && !t.active[1])
            &&& (t.active[0] || t.active[1]) && !t.stopped ==> (t.phase !is Finished && a != StreamAction::Finish)
        },
{
    lemma_next_preserves_inv(s, event);
    match s.phase {
        StreamPhase::Completing(i) => {
            let a = with_active(s.active, i, false);
            assert(a[0] == (if i == 0 { false } else { s.active[0] }));
            assert(a[1] == (if i == 1 { false } else { s.active[1] }));
        },
        StreamPhase::Rewriting(i) => {
            let a = with_active(s.active, i, true);
            assert(a[0] == (if i == 0 { true } else { s.active[0] }));
            assert(a[1] == (if i == 1 { true } else { s.active[1] }));
        },
        _ => {},
    }
}

/// A run that finishes without a stop request has written every signal pair
/// of the run to the buffers.
pub proof fn lemma_finished_run_is_complete(s: StreamView)
    requires
        s.inv(),
        s.phase is Finished,
        !s.stopped,
    ensures
        s.pairs_generated == s.total_pairs,
{
}

} // verus!
