//! The decisions of the terminal front end: which field has the focus, what
//! a key press does, and what the status line says.
use vstd::prelude::*;

verus! {

/// The editable fields, in focus order.
#[derive(Clone, Copy, Debug, PartialEq, Eq)]
pub enum Field {
    FreqCh0,
    PhaseCh0,
    FreqCh1,
    PhaseCh1,
    Amplitude,
    Offset,
    Duration,
    NumCycles,
    PauseSec,
}

/// The number of editable fields.
pub const FIELD_COUNT: usize = 9;

/// The field at position `i` of the focus order.
pub open spec fn field_at_spec(i: int) -> Field {
    if i == 0 {
        Field::FreqCh0
    } else if i == 1 {
        Field::PhaseCh0
    } else if i == 2 {
        Field::FreqCh1
    } else if i == 3 {
        Field::PhaseCh1
    } else if i == 4 {
        Field::Amplitude
    } else if i == 5 {
        Field::Offset
    } else if i == 6 {
        Field::Duration
    } else if i == 7 {
        Field::NumCycles
    } else {
        Field::PauseSec
    }
}

/// The field at position `i` of the focus order.
pub fn field_at(i: usize) -> (f: Field)
    requires
        i < FIELD_COUNT,
    ensures
        f == field_at_spec(i as int),
{
    if i == 0 {
        Field::FreqCh0
    } else if i == 1 {
        Field::PhaseCh0
    } else if i == 2 {
        Field::FreqCh1
    } else if i == 3 {
        Field::PhaseCh1
    } else if i == 4 {
        Field::Amplitude
    } else if i == 5 {
        Field::Offset
    } else if i == 6 {
        Field::Duration
    } else if i == 7 {
        Field::NumCycles
    } else {
        Field::PauseSec
    }
}

/// The position after `i` in the focus order, wrapping around.
pub open spec fn next_focus(i: int) -> int {
    (i + 1) % FIELD_COUNT as int
}

/// The position before `i` in the focus order, wrapping around.
pub open spec fn prev_focus(i: int) -> int {
    (i + FIELD_COUNT - 1) % FIELD_COUNT as int
}

/// A key as the front end tells them apart.
#[derive(Clone, Copy, Debug, PartialEq, Eq)]
pub enum Key {
    Char(char),
    Esc,
    Tab,
    BackTab,
    Up,
    Down,
    Enter,
    Other,
}

/// A change of the focused field's value: one step up or down, or ten.
#[derive(Clone, Copy, Debug, PartialEq, Eq)]
pub enum Adjustment {
    Up,
    Down,
    CoarseUp,
    CoarseDown,
}

/// What a key press asks of the front end, besides the focus change that
/// [`ControlState::handle_key`] makes itself.
#[derive(Clone, Copy, Debug, PartialEq, Eq)]
pub enum KeyCommand {
    /// Leave the front end.
    Quit,
    /// Raise the stop flag of the running generation.
    Abort,
    /// Raise the stop flag and leave the front end.
    StopAndQuit,
    /// Change the focused field's value.
    Adjust(Adjustment),
    /// Start a generation.
    Start,
    /// Nothing beyond redrawing.
    Redraw,
}

/// Whether a generation runs one cycle or a sequence of them.
#[derive(Clone, Copy, Debug, PartialEq, Eq)]
pub enum StartMode {
    Single,
    Multi,
}

/// How the status line is drawn.
#[derive(Clone, Copy, Debug, PartialEq, Eq)]
pub enum StatusStyle {
    /// A generation is running.
    Generating,
    /// No status to show.
    Hidden,
    /// The status reports an error.
    Error,
    /// The status reports something else.
    Info,
}

/// The command a key press gives, given whether a generation is running
/// and whether Control (and no other modifier) was held.
pub open spec fn key_command(running: bool, key: Key, control: bool) -> KeyCommand {
    if control && key == Key::Char('c') {
        KeyCommand::StopAndQuit
    } else {
        match key {
            Key::Char('q') | Key::Char('Q') => if running { KeyCommand::Redraw } else { KeyCommand::Quit },
            Key::Esc => if running { KeyCommand::Abort } else { KeyCommand::Quit },
            Key::Up => if running { KeyCommand::Redraw } else { KeyCommand::Adjust(Adjustment::Up) },
            Key::Down => if running { KeyCommand::Redraw } else { KeyCommand::Adjust(Adjustment::Down) },
            Key::Char('+') => if running { KeyCommand::Redraw } else { KeyCommand::Adjust(Adjustment::CoarseUp) },
            Key::Char('-') => if running { KeyCommand::Redraw } else { KeyCommand::Adjust(Adjustment::CoarseDown) },
            Key::Enter => if running { KeyCommand::Redraw } else { KeyCommand::Start },
            _ => KeyCommand::Redraw,
        }
    }
}

/// The focus position after a key press at position `focused`.
pub open spec fn focus_after(focused: int, key: Key) -> int {
    match key {
        Key::Tab => next_focus(focused),
        Key::BackTab => prev_focus(focused),
        _ => focused,
    }
}

/// The status line after a generation ended with `result`.
pub open spec fn finished_status(result: Result<(), String>) -> Seq<char> {
    match result {
        Ok(()) => "Generation complete."@,
        Err(msg) => "Error: "@ + msg@,
    }
}

/// Whether `s` starts with `prefix`.
pub fn starts_with(s: &str, prefix: &str) -> (b: bool)
    ensures
        b == (prefix@.len() <= s@.len() && s@.subrange(0, prefix@.len() as int) == prefix@),
{
    let n = s.unicode_len();
    let m = prefix.unicode_len();
    if m > n {
        return false;
    }
    let mut i: usize = 0;
    while i < m
        invariant
            m <= n,
            n == s@.len(),
            m == prefix@.len(),
            i <= m,
            forall|j: int| 0 <= j < i ==> s@[j] == prefix@[j],
        decreases m - i,
    {
        if s.get_char(i) != prefix.get_char(i) {
            assert(s@.subrange(0, m as int)[i as int] != prefix@[i as int]);
            return false;
        }
        i = i + 1;
    }
    assert(s@.subrange(0, m as int) =~= prefix@);
    true
}

/// What the front end's control state holds: the view of a
/// [`ControlState`].
pub struct ControlView {
    /// The position of the focused field in the focus order.
    pub focused: usize,
    /// Whether a generation is running.
    pub running: bool,
    /// The status line.
    pub status: Seq<char>,
    /// How many cycles a generation runs.
    pub num_cycles: usize,
}

/// The part of the front end's state that is not a number being edited.
/// The focus always names one of the fields.
#[derive(Debug)]
pub struct ControlState {
    focused: usize,
    running: bool,
    status: String,
    num_cycles: usize,
}

impl View for ControlState {
    type V = ControlView;

    closed spec fn view(&self) -> ControlView {
        ControlView {
            focused: self.focused,
            running: self.running,
            status: self.status@,
            num_cycles: self.num_cycles,
        }
    }
}

impl ControlState {
    #[verifier::type_invariant]
    spec fn well_formed(self) -> bool {
        self.focused < FIELD_COUNT
    }

    /// The state the front end starts in: the first field focused, nothing
    /// running, no status, one cycle.
    pub fn new() -> (s: ControlState)
        ensures
            s@.focused == 0,
            !s@.running,
            s@.status == Seq::<char>::empty(),
            s@.num_cycles == 1,
    {
        ControlState { focused: 0, running: false, status: String::new(), num_cycles: 1 }
    }

    /// The position of the focused field; always below [`FIELD_COUNT`].
    pub fn focused(&self) -> (i: usize)
        ensures
            i == self@.focused,
            i < FIELD_COUNT,
    {
        proof {
            use_type_invariant(self);
        }
        self.focused
    }

    /// Whether a generation is running.
    pub fn running(&self) -> (b: bool)
        ensures
            b == self@.running,
    {
        self.running
    }

    /// The status line.
    pub fn status(&self) -> (s: &str)
        ensures
            s@ == self@.status,
    {
        self.status.as_str()
    }

    /// How many cycles a generation runs.
    pub fn num_cycles(&self) -> (n: usize)
        ensures
            n == self@.num_cycles,
    {
        self.num_cycles
    }

    /// Sets how many cycles a generation runs.
    pub fn set_num_cycles(&mut self, n: usize)
        ensures
            final(self)@.num_cycles == n,
            final(self)@.focused == old(self)@.focused,
            final(self)@.running == old(self)@.running,
            final(self)@.status == old(self)@.status,
    {
        proof {
            use_type_invariant(&*self);
        }
        self.num_cycles = n;
    }

    /// The focused field.
    pub fn focused_field(&self) -> (f: Field)
        ensures
            f == field_at_spec(self@.focused as int),
    {
        proof {
            use_type_invariant(self);
        }
        field_at(self.focused)
    }

    /// Handles a key press: moves the focus on Tab and Shift-Tab, and
    /// returns what else the key asks for. `control` says whether Control,
    /// and no other modifier, was held.
    pub fn handle_key(&mut self, key: Key, control: bool) -> (c: KeyCommand)
        ensures
            c == key_command(old(self)@.running, key, control),
            final(self)@.focused == focus_after(old(self)@.focused as int, key),
            final(self)@.focused < FIELD_COUNT,
            final(self)@.running == old(self)@.running,
            final(self)@.status == old(self)@.status,
            final(self)@.num_cycles == old(self)@.num_cycles,
    {
        proof {
            use_type_invariant(&*self);
        }
        match key {
            Key::Tab => {
                self.focused = (self.focused + 1) % FIELD_COUNT;
            },
            Key::BackTab => {
                self.focused = (self.focused + FIELD_COUNT - 1) % FIELD_COUNT;
            },
            _ => {},
        }
        if control && matches!(key, Key::Char('c')) {
            return KeyCommand::StopAndQuit;
        }
        match key {
            Key::Char('q') | Key::Char('Q') => if self.running { KeyCommand::Redraw } else { KeyCommand::Quit },
            Key::Esc => if self.running { KeyCommand::Abort } else { KeyCommand::Quit },
            Key::Up => if self.running { KeyCommand::Redraw } else { KeyCommand::Adjust(Adjustment::Up) },
            Key::Down => if self.running { KeyCommand::Redraw } else { KeyCommand::Adjust(Adjustment::Down) },
            Key::Char('+') => if self.running { KeyCommand::Redraw } else { KeyCommand::Adjust(Adjustment::CoarseUp) },
            Key::Char('-') => if self.running { KeyCommand::Redraw } else { KeyCommand::Adjust(Adjustment::CoarseDown) },
            Key::Enter => if self.running { KeyCommand::Redraw } else { KeyCommand::Start },
            _ => KeyCommand::Redraw,
        }
    }

    /// Whether a generation started now runs one cycle or a sequence.
    pub fn start_mode(&self) -> (m: StartMode)
        ensures
            m == (if self@.num_cycles == 1 { StartMode::Single } else { StartMode::Multi }),
    {
        if self.num_cycles == 1 {
            StartMode::Single
        } else {
            StartMode::Multi
        }
    }

    /// Starts a generation whose parameters were checked with outcome
    /// `validation`: on success it is marked running and the status is
    /// cleared, else the status shows the error. Returns whether the
    /// generation may start.
    pub fn begin_generation(&mut self, validation: Result<(), String>) -> (started: bool)
        ensures
            started == validation is Ok,
            started ==> final(self)@.running && final(self)@.status == Seq::<char>::empty(),
            !started ==> final(self)@.running == old(self)@.running
                && final(self)@.status == "Error: "@ + validation->Err_0@,
            final(self)@.focused == old(self)@.focused,
            final(self)@.num_cycles == old(self)@.num_cycles,
    {
        proof {
            use_type_invariant(&*self);
        }
        match validation {
            Ok(()) => {
                self.running = true;
                self.status = String::new();
                true
            },
            Err(e) => {
                let mut s = String::from_str("Error: ");
                s.append(e.as_str());
                self.status = s;
                false
            },
        }
    }

    /// Records the end of the running generation with its `result`.
    pub fn finish_generation(&mut self, result: Result<(), String>)
        ensures
            !final(self)@.running,
            final(self)@.status == finished_status(result),
            final(self)@.focused == old(self)@.focused,
            final(self)@.num_cycles == old(self)@.num_cycles,
    {
        proof {
            use_type_invariant(&*self);
        }
        self.running = false;
        match result {
            Ok(()) => {
                self.status = String::from_str("Generation complete.");
            },
            Err(msg) => {
                let mut s = String::from_str("Error: ");
                s.append(msg.as_str());
                self.status = s;
            },
        }
    }

    /// How the status line is drawn: a running generation first, then no
    /// status, then a status that starts with `"Error "`.
    pub fn status_style(&self) -> (st: StatusStyle)
        ensures
            st == (if self@.running {
                StatusStyle::Generating
            } else if self@.status.len() == 0 {
                StatusStyle::Hidden
            } else if 6 <= self@.status.len() && self@.status.subrange(0, 6) == "Error "@ {
                StatusStyle::Error
            } else {
                StatusStyle::Info
            }),
    {
        if self.running {
            StatusStyle::Generating
        } else if self.status.as_str().is_empty() {
            StatusStyle::Hidden
        } else if starts_with(self.status.as_str(), "Error ") {
            proof {
                reveal_strlit("Error ");
            }
            StatusStyle::Error
        } else {
            proof {
                reveal_strlit("Error ");
            }
            StatusStyle::Info
        }
    }

    /// The key hint for starting or aborting, as the bottom line shows it.
    pub fn start_hint(&self) -> (s: &'static str)
        ensures
            s@ == (if self@.running { "[Esc] Abort "@ } else { "[Enter] Start "@ }),
    {
        if self.running {
            "[Esc] Abort "
        } else {
            "[Enter] Start "
        }
    }

    /// How many of the `available` preset cycles a generation uses and the
    /// screen lists.
    pub fn active_cycle_count(&self, available: usize) -> (n: usize)
        ensures
            n == (if self@.num_cycles < available { self@.num_cycles } else { available }),
    {
        if self.num_cycles < available {
            self.num_cycles
        } else {
            available
        }
    }
}

/// The text of a section heading, on a line of its own.
pub fn section(label: &str) -> (s: String)
    ensures
        s@ == "\n"@ + label@ + "\n"@,
{
    let mut s = String::from_str("\n");
    s.append(label);
    s.append("\n");
    s
}

/// Shift-Tab undoes Tab and Tab undoes Shift-Tab.
pub proof fn lemma_focus_moves_are_inverse(i: int)
    requires
        0 <= i < FIELD_COUNT,
    ensures
        prev_focus(next_focus(i)) == i,
        next_focus(prev_focus(i)) == i,
        0 <= next_focus(i) < FIELD_COUNT,
        0 <= prev_focus(i) < FIELD_COUNT,
{
}

/// While a generation runs, the only keys that ask for more than a redraw
/// are Esc (abort) and Control-C (stop and quit).
pub proof fn lemma_running_ignores_edits(key: Key, control: bool)
    ensures
        key_command(true, key, control) == KeyCommand::Abort ==> key == Key::Esc,
        key_command(true, key, control) == KeyCommand::StopAndQuit ==> control && key == Key::Char('c'),
        key_command(true, key, control) is Redraw || key_command(true, key, control) is Abort
            || key_command(true, key, control) is StopAndQuit,
{
}

} // verus!
