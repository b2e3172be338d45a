//! Opening the E14-140 through the vendor DLL.
//!
//! Opening is a fixed protocol of DLL and device calls, each of which can
//! fail. The decisions between the calls form a state machine here: the
//! caller performs the call named by each [`OpenAction::Perform`] and hands
//! the outcome back as an [`OpenReply`].
use vstd::prelude::*;
use vstd::utf8::*;
use crate::cstring::{c_str, c_str_length, c_string_from_bytes, str_from_utf8, utf8_lossy};
use crate::text::{append_radix, decimal, hex_lower};

verus! {

/// The DLL interface version this program was written against.
pub const CURRENT_VERSION_LUSBAPI: u32 = 0x30002;

/// The number of virtual slots in which the DLL looks for modules.
pub const MAX_VIRTUAL_SLOTS_QUANTITY_LUSBAPI: u16 = 127;

/// The lowest module revision that supports streaming (`'B'`).
pub const MIN_STREAMING_REVISION: u8 = 66;

/// The last error the DLL reports: a NUL-terminated message and a number.
#[derive(Clone, Copy, Debug)]
pub struct LAST_ERROR_INFO_LUSBAPI {
    pub ErrorString: [u8; 256],
    pub ErrorNumber: u32,
}

/// Whether a DLL version has the major version this program supports.
pub open spec fn dll_version_supported(version: u32) -> bool {
    version as int / 65536 == CURRENT_VERSION_LUSBAPI as int / 65536
}

/// The text appended to a device error whose DLL message reads `message`
/// and whose error number is `number`.
pub open spec fn error_suffix_text(message: Seq<char>, number: u32) -> Seq<char> {
    let tail = " (Lusbapi error "@ + decimal(number as nat) + ")"@;
    if message.len() == 0 {
        tail
    } else {
        ": "@ + message + tail
    }
}

/// The text appended to a device error: empty when no error information
/// could be read, else the DLL's message (if any) and error number.
pub open spec fn last_error_suffix_text(info: Option<LAST_ERROR_INFO_LUSBAPI>) -> Seq<char> {
    match info {
        None => Seq::empty(),
        Some(info) => error_suffix_text(utf8_lossy(c_str(info.ErrorString@)), info.ErrorNumber),
    }
}

/// Formats the DLL's error message and number as a suffix for an error
/// message: `": message (Lusbapi error N)"`, or `" (Lusbapi error N)"` when
/// the message is empty.
pub fn format_error_suffix(message: &str, number: u32) -> (s: String)
    ensures
        s@ == error_suffix_text(message@, number),
{
    let mut s = String::new();
    if message.is_empty() {
        s.append(" (Lusbapi error ");
    } else {
        s.append(": ");
        s.append(message);
        s.append(" (Lusbapi error ");
    }
    append_radix(&mut s, number as u64, 10);
    s.append(")");
    proof {
        let d = decimal(number as nat);
        if message@.len() == 0 {
            assert(s@ =~= " (Lusbapi error "@ + d + ")"@);
        } else {
            assert(s@ =~= ": "@ + message@ + (" (Lusbapi error "@ + d + ")"@));
        }
    }
    s
}

/// Formats the error information the DLL returned (or `None` when it
/// could not be read) as a suffix for an error message.
pub fn last_error_suffix(info: Option<&LAST_ERROR_INFO_LUSBAPI>) -> (s: String)
    ensures
        s@ == last_error_suffix_text(match info { Some(i) => Some(*i), None => None }),
{
    match info {
        None => String::new(),
        Some(info) => {
            let message = c_string_from_bytes(info.ErrorString.as_slice());
            format_error_suffix(message.as_str(), info.ErrorNumber)
        },
    }
}

/// The name the module reports, as the C string in its name buffer
/// decoded from UTF-8; a single space when it is not valid UTF-8.
pub open spec fn module_name_text(name: Seq<u8>) -> Seq<char> {
    if valid_utf8(c_str(name)) {
        decode_utf8(c_str(name))
    } else {
        " "@
    }
}

/// The name of the module this program drives.
pub open spec fn expected_module_name() -> Seq<char> {
    "E140"@
}

/// The module name as text (see [`module_name_text`]).
pub fn module_name(name: &[u8]) -> (s: String)
    ensures
        s@ == module_name_text(name@),
{
    let len = c_str_length(name);
    let head = &name[0..len];
    assert(head@ == c_str(name@));
    match str_from_utf8(head) {
        Some(s) => s,
        None => String::from_str(" "),
    }
}

/// Whether the module name in `name` is the expected one.
pub fn is_expected_module(name: &[u8]) -> (b: bool)
    ensures
        b == (module_name_text(name@) == expected_module_name()),
{
    let s = module_name(name);
    let expected = String::from_str("E140");
    s == expected
}

/// A device call whose failure is reported together with the DLL's last
/// error.
#[derive(Clone, Copy, Debug, PartialEq, Eq)]
pub enum DeviceFailure {
    NotFound,
    ModuleHandle,
    ModuleName,
    UsbSpeed,
    ModuleDescription,
    DacPars,
}

pub open spec fn device_failure_prefix(f: DeviceFailure) -> Seq<char> {
    match f {
        DeviceFailure::NotFound => "E14-140 not found"@,
        DeviceFailure::ModuleHandle => "GetModuleHandle() failed"@,
        DeviceFailure::ModuleName => "GetModuleName() failed"@,
        DeviceFailure::UsbSpeed => "GetUsbSpeed() failed"@,
        DeviceFailure::ModuleDescription => "GET_MODULE_DESCRIPTION() failed"@,
        DeviceFailure::DacPars => "GET_DAC_PARS() failed"@,
    }
}

/// Why opening the module failed.
#[derive(Clone, Debug)]
pub enum OpenFailure {
    /// Loading the DLL failed with this error text.
    LoadLibrary(String),
    MissingGetDllVersion,
    UnsupportedVersion(u32),
    MissingCreateInstance,
    NullInstance,
    /// A device call failed; the DLL's last error, if it could be read.
    Device(DeviceFailure, Option<LAST_ERROR_INFO_LUSBAPI>),
    /// The connected module reported this name buffer.
    WrongModule(Vec<u8>),
    DacNotAccessible,
    RevisionTooOld,
}

/// The error message of a failure.
pub open spec fn open_failure_text(f: OpenFailure) -> Seq<char> {
    match f {
        OpenFailure::LoadLibrary(e) => "LoadLibraryW failed: "@ + e@,
        OpenFailure::MissingGetDllVersion => "GetProcAddress(GetDllVersion) failed"@,
        OpenFailure::UnsupportedVersion(v) => "Unsupported major version: 0x"@ + hex_lower(v as nat),
        OpenFailure::MissingCreateInstance => "GetProcAddress(CreateLInstance) failed"@,
        OpenFailure::NullInstance => "CreateLInstance(\"e140\") returned null"@,
        OpenFailure::Device(d, info) => device_failure_prefix(d) + last_error_suffix_text(info),
        OpenFailure::WrongModule(name) => "Connected module is '"@ + module_name_text(name@) + "', expected 'E140'"@,
        OpenFailure::DacNotAccessible => "DAC not accessible"@,
        OpenFailure::RevisionTooOld => "Streaming requires Rev. B+"@,
    }
}

impl DeviceFailure {
    fn prefix(&self) -> (s: String)
        ensures
            s@ == device_failure_prefix(*self),
    {
        match self {
            DeviceFailure::NotFound => String::from_str("E14-140 not found"),
            DeviceFailure::ModuleHandle => String::from_str("GetModuleHandle() failed"),
            DeviceFailure::ModuleName => String::from_str("GetModuleName() failed"),
            DeviceFailure::UsbSpeed => String::from_str("GetUsbSpeed() failed"),
            DeviceFailure::ModuleDescription => String::from_str("GET_MODULE_DESCRIPTION() failed"),
            DeviceFailure::DacPars => String::from_str("GET_DAC_PARS() failed"),
        }
    }
}

impl OpenFailure {
    /// The error message of this failure.
    pub fn message(&self) -> (s: String)
        ensures
            s@ == open_failure_text(*self),
    {
        match self {
            OpenFailure::LoadLibrary(e) => {
                let mut s = String::from_str("LoadLibraryW failed: ");
                s.append(e.as_str());
                s
            },
            OpenFailure::MissingGetDllVersion => String::from_str("GetProcAddress(GetDllVersion) failed"),
            OpenFailure::UnsupportedVersion(v) => {
                let mut s = String::from_str("Unsupported major version: 0x");
                append_radix(&mut s, *v as u64, 16);
                s
            },
            OpenFailure::MissingCreateInstance => String::from_str("GetProcAddress(CreateLInstance) failed"),
            OpenFailure::NullInstance => String::from_str("CreateLInstance(\"e140\") returned null"),
            OpenFailure::Device(d, info) => {
                let mut s = d.prefix();
                let suffix = match info {
                    Some(i) => last_error_suffix(Some(i)),
                    None => last_error_suffix(None),
                };
                s.append(suffix.as_str());
                s
            },
            OpenFailure::WrongModule(name) => {
                let mut s = String::from_str("Connected module is '");
                let n = module_name(name.as_slice());
                s.append(n.as_str());
                s.append("', expected 'E140'");
                s
            },
            OpenFailure::DacNotAccessible => String::from_str("DAC not accessible"),
            OpenFailure::RevisionTooOld => String::from_str("Streaming requires Rev. B+"),
        }
    }
}

/// A step of the opening protocol.
#[derive(Clone, Copy, Debug, PartialEq, Eq)]
pub enum OpenStage {
    /// Load the DLL.
    LoadLibrary,
    /// Look up `GetDllVersion` in the DLL.
    ResolveGetDllVersion,
    /// Call `GetDllVersion`.
    GetDllVersion,
    /// Look up `CreateLInstance` in the DLL.
    ResolveCreateInstance,
    /// Create the `"e140"` instance.
    CreateInstance,
    /// Try to open the module in this virtual slot.
    OpenSlot(u16),
    /// Read the module's handle.
    GetModuleHandle,
    /// Read the module's name.
    GetModuleName,
    /// Read the USB speed.
    GetUsbSpeed,
    /// Read the module description.
    GetModuleDescription,
    /// Read the DAC parameters.
    GetDacPars,
    /// Read the DLL's last error after this device call failed.
    QueryLastError(DeviceFailure),
    /// The module is open.
    Done,
    /// Opening failed.
    Aborted,
}

/// The outcome of a step.
#[derive(Clone, Debug)]
pub enum OpenReply {
    Succeeded,
    Failed,
    /// Loading the DLL failed with this error text.
    LoadFailed(String),
    /// The value `GetDllVersion` returned.
    DllVersion(u32),
    /// The module's name buffer.
    ModuleName(Vec<u8>),
    /// What the module description says of the DAC.
    ModuleDescription { dac_active: bool, revision: u8 },
    /// The DLL's last error, `None` when it could not be read.
    LastError(Option<LAST_ERROR_INFO_LUSBAPI>),
}

/// What to do next.
#[derive(Clone, Debug)]
pub enum OpenAction {
    Perform(OpenStage),
    /// Every step succeeded: the module is open.
    Opened,
    Fail(OpenFailure),
}

/// Where the opening protocol stands, with what the module reported: the
/// view of an [`OpenState`].
#[derive(Clone, Debug)]
pub struct OpenView {
    pub stage: OpenStage,
    pub dll_version: Option<u32>,
    pub module_name: Option<Vec<u8>>,
    pub dac_active: Option<bool>,
    pub revision: Option<u8>,
}

/// Whether `reply` is an outcome that the step `stage` can have.
pub open spec fn open_accepts(stage: OpenStage, reply: OpenReply) -> bool {
    match stage {
        OpenStage::LoadLibrary => reply is Succeeded || reply is LoadFailed,
        OpenStage::GetDllVersion => reply is DllVersion,
        OpenStage::GetModuleName => reply is ModuleName || reply is Failed,
        OpenStage::GetModuleDescription => reply is ModuleDescription || reply is Failed,
        OpenStage::QueryLastError(_) => reply is LastError,
        OpenStage::Done | OpenStage::Aborted => false,
        _ => reply is Succeeded || reply is Failed,
    }
}

/// The position of a stage in the protocol; negative off the main path.
pub open spec fn stage_rank(stage: OpenStage) -> int {
    match stage {
        OpenStage::LoadLibrary => 0,
        OpenStage::ResolveGetDllVersion => 1,
        OpenStage::GetDllVersion => 2,
        OpenStage::ResolveCreateInstance => 3,
        OpenStage::CreateInstance => 4,
        OpenStage::OpenSlot(_) => 5,
        OpenStage::GetModuleHandle => 6,
        OpenStage::GetModuleName => 7,
        OpenStage::GetUsbSpeed => 8,
        OpenStage::GetModuleDescription => 9,
        OpenStage::GetDacPars => 10,
        OpenStage::Done => 11,
        OpenStage::QueryLastError(_) | OpenStage::Aborted => -1,
    }
}

impl OpenView {
    pub open spec fn at(self, stage: OpenStage) -> (OpenView, OpenAction) {
        (OpenView { stage, ..self }, OpenAction::Perform(stage))
    }

    pub open spec fn abort(self, f: OpenFailure) -> (OpenView, OpenAction) {
        (OpenView { stage: OpenStage::Aborted, ..self }, OpenAction::Fail(f))
    }

    /// The state at the start of the protocol.
    pub open spec fn initial() -> OpenView {
        OpenView {
            stage: OpenStage::LoadLibrary,
            dll_version: None,
            module_name: None,
            dac_active: None,
            revision: None,
        }
    }

    /// One step of the protocol: the state after `reply` and what to do
    /// next; `None` when `reply` is no outcome of the current step (in
    /// particular once the protocol has ended).
    pub open spec fn next(self, reply: OpenReply) -> Option<(OpenView, OpenAction)> {
        match (self.stage, reply) {
            (OpenStage::LoadLibrary, OpenReply::Succeeded) => Some(self.at(OpenStage::ResolveGetDllVersion)),
            (OpenStage::LoadLibrary, OpenReply::LoadFailed(e)) => Some(self.abort(OpenFailure::LoadLibrary(e))),
            (OpenStage::ResolveGetDllVersion, OpenReply::Succeeded) => Some(self.at(OpenStage::GetDllVersion)),
            (OpenStage::ResolveGetDllVersion, OpenReply::Failed) => Some(self.abort(OpenFailure::MissingGetDllVersion)),
            (OpenStage::GetDllVersion, OpenReply::DllVersion(v)) => {
                let s = OpenView { dll_version: Some(v), ..self };
                if dll_version_supported(v) {
                    Some(s.at(OpenStage::ResolveCreateInstance))
                } else {
                    Some(s.abort(OpenFailure::UnsupportedVersion(v)))
                }
            },
            (OpenStage::ResolveCreateInstance, OpenReply::Succeeded) => Some(self.at(OpenStage::CreateInstance)),
            (OpenStage::ResolveCreateInstance, OpenReply::Failed) => Some(self.abort(OpenFailure::MissingCreateInstance)),
            (OpenStage::CreateInstance, OpenReply::Succeeded) => Some(self.at(OpenStage::OpenSlot(0))),
            (OpenStage::CreateInstance, OpenReply::Failed) => Some(self.abort(OpenFailure::NullInstance)),
            (OpenStage::OpenSlot(_), OpenReply::Succeeded) => Some(self.at(OpenStage::GetModuleHandle)),
            (OpenStage::OpenSlot(slot), OpenReply::Failed) => if slot + 1 < MAX_VIRTUAL_SLOTS_QUANTITY_LUSBAPI {
                Some(self.at(OpenStage::OpenSlot((slot + 1) as u16)))
            } else {
                Some(self.at(OpenStage::QueryLastError(DeviceFailure::NotFound)))
            },
            (OpenStage::GetModuleHandle, OpenReply::Succeeded) => Some(self.at(OpenStage::GetModuleName)),
            (OpenStage::GetModuleHandle, OpenReply::Failed) => Some(self.at(OpenStage::QueryLastError(DeviceFailure::ModuleHandle))),
            (OpenStage::GetModuleName, OpenReply::ModuleName(name)) => {
                if module_name_text(name@) == expected_module_name() {
                    Some(OpenView { module_name: Some(name), ..self }.at(OpenStage::GetUsbSpeed))
                } else {
                    Some(self.abort(OpenFailure::WrongModule(name)))
                }
            },
            (OpenStage::GetModuleName, OpenReply::Failed) => Some(self.at(OpenStage::QueryLastError(DeviceFailure::ModuleName))),
            (OpenStage::GetUsbSpeed, OpenReply::Succeeded) => Some(self.at(OpenStage::GetModuleDescription)),
            (OpenStage::GetUsbSpeed, OpenReply::Failed) => Some(self.at(OpenStage::QueryLastError(DeviceFailure::UsbSpeed))),
            (OpenStage::GetModuleDescription, OpenReply::ModuleDescription { dac_active, revision }) => {
                let s = OpenView { dac_active: Some(dac_active), revision: Some(revision), ..self };
                if !dac_active {
                    Some(s.abort(OpenFailure::DacNotAccessible))
                } else if revision < MIN_STREAMING_REVISION {
                    Some(s.abort(OpenFailure::RevisionTooOld))
                } else {
                    Some(s.at(OpenStage::GetDacPars))
                }
            },
            (OpenStage::GetModuleDescription, OpenReply::Failed) =>
                Some(self.at(OpenStage::QueryLastError(DeviceFailure::ModuleDescription))),
            (OpenStage::GetDacPars, OpenReply::Succeeded) => Some((OpenView { stage: OpenStage::Done, ..self }, OpenAction::Opened)),
            (OpenStage::GetDacPars, OpenReply::Failed) => Some(self.at(OpenStage::QueryLastError(DeviceFailure::DacPars))),
            (OpenStage::QueryLastError(f), OpenReply::LastError(info)) => Some(self.abort(OpenFailure::Device(f, info))),
            _ => None,
        }
    }

    /// What holds of every state the protocol reaches: past the version
    /// check the version is supported, past the name check the module is an
    /// E140, past the description check its DAC is usable for streaming.
    pub open spec fn inv(self) -> bool {
        &&& (self.stage matches OpenStage::OpenSlot(s) ==> s < MAX_VIRTUAL_SLOTS_QUANTITY_LUSBAPI)
        &&& stage_rank(self.stage) >= 3 ==> (self.dll_version matches Some(v) && dll_version_supported(v))
        &&& stage_rank(self.stage) >= 8 ==> (self.module_name matches Some(n) && module_name_text(n@) == expected_module_name())
        &&& stage_rank(self.stage) >= 10 ==> (self.dac_active == Some(true) && (self.revision matches Some(r) && r >= MIN_STREAMING_REVISION))
    }

    fn go(&mut self, stage: OpenStage) -> (a: OpenAction)
        ensures
            (*final(self), a) == old(self).at(stage),
    {
        self.stage = stage;
        OpenAction::Perform(stage)
    }

    fn stop(&mut self, f: OpenFailure) -> (a: OpenAction)
        ensures
            (*final(self), a) == old(self).abort(f),
    {
        self.stage = OpenStage::Aborted;
        OpenAction::Fail(f)
    }

    fn advance(&mut self, reply: OpenReply) -> (action: OpenAction)
        requires
            old(self).inv(),
            open_accepts(old(self).stage, reply),
        ensures
            old(self).next(reply) == Some((*final(self), action)),
            final(self).inv(),
    {
        proof {
            lemma_open_next_preserves_inv(*self, reply);
        }
        match (self.stage, reply) {
            (OpenStage::LoadLibrary, OpenReply::Succeeded) => self.go(OpenStage::ResolveGetDllVersion),
            (OpenStage::LoadLibrary, OpenReply::LoadFailed(e)) => self.stop(OpenFailure::LoadLibrary(e)),
            (OpenStage::ResolveGetDllVersion, OpenReply::Succeeded) => self.go(OpenStage::GetDllVersion),
            (OpenStage::ResolveGetDllVersion, OpenReply::Failed) => self.stop(OpenFailure::MissingGetDllVersion),
            (OpenStage::GetDllVersion, OpenReply::DllVersion(v)) => {
                self.dll_version = Some(v);
                if v / 65536 == CURRENT_VERSION_LUSBAPI / 65536 {
                    self.go(OpenStage::ResolveCreateInstance)
                } else {
                    self.stop(OpenFailure::UnsupportedVersion(v))
                }
            },
            (OpenStage::ResolveCreateInstance, OpenReply::Succeeded) => self.go(OpenStage::CreateInstance),
            (OpenStage::ResolveCreateInstance, OpenReply::Failed) => self.stop(OpenFailure::MissingCreateInstance),
            (OpenStage::CreateInstance, OpenReply::Succeeded) => self.go(OpenStage::OpenSlot(0)),
            (OpenStage::CreateInstance, OpenReply::Failed) => self.stop(OpenFailure::NullInstance),
            (OpenStage::OpenSlot(_), OpenReply::Succeeded) => self.go(OpenStage::GetModuleHandle),
            (OpenStage::OpenSlot(slot), OpenReply::Failed) => if slot + 1 < MAX_VIRTUAL_SLOTS_QUANTITY_LUSBAPI {
                self.go(OpenStage::OpenSlot(slot + 1))
            } else {
                self.go(OpenStage::QueryLastError(DeviceFailure::NotFound))
            },
            (OpenStage::GetModuleHandle, OpenReply::Succeeded) => self.go(OpenStage::GetModuleName),
            (OpenStage::GetModuleHandle, OpenReply::Failed) => self.go(OpenStage::QueryLastError(DeviceFailure::ModuleHandle)),
            (OpenStage::GetModuleName, OpenReply::ModuleName(name)) => {
                if is_expected_module(name.as_slice()) {
                    self.module_name = Some(name);
                    self.go(OpenStage::GetUsbSpeed)
                } else {
                    self.stop(OpenFailure::WrongModule(name))
                }
            },
            (OpenStage::GetModuleName, OpenReply::Failed) => self.go(OpenStage::QueryLastError(DeviceFailure::ModuleName)),
            (OpenStage::GetUsbSpeed, OpenReply::Succeeded) => self.go(OpenStage::GetModuleDescription),
            (OpenStage::GetUsbSpeed, OpenReply::Failed) => self.go(OpenStage::QueryLastError(DeviceFailure::UsbSpeed)),
            (OpenStage::GetModuleDescription, OpenReply::ModuleDescription { dac_active, revision }) => {
                self.dac_active = Some(dac_active);
                self.revision = Some(revision);
                if !dac_active {
                    self.stop(OpenFailure::DacNotAccessible)
                } else if revision < MIN_STREAMING_REVISION {
                    self.stop(OpenFailure::RevisionTooOld)
                } else {
                    self.go(OpenStage::GetDacPars)
                }
            },
            (OpenStage::GetModuleDescription, OpenReply::Failed) =>
                self.go(OpenStage::QueryLastError(DeviceFailure::ModuleDescription)),
            (OpenStage::GetDacPars, OpenReply::Succeeded) => {
                self.stage = OpenStage::Done;
                OpenAction::Opened
            },
            (OpenStage::GetDacPars, OpenReply::Failed) => self.go(OpenStage::QueryLastError(DeviceFailure::DacPars)),
            (OpenStage::QueryLastError(f), OpenReply::LastError(info)) => self.stop(OpenFailure::Device(f, info)),
            _ => unreached(),
        }
    }
}

/// The opening protocol. Only [`OpenState::start`] and [`OpenState::step`]
/// make and change one, so its view always satisfies [`OpenView::inv`].
#[derive(Debug)]
pub struct OpenState {
    state: OpenView,
}

impl View for OpenState {
    type V = OpenView;

    closed spec fn view(&self) -> OpenView {
        self.state
    }
}

impl OpenState {
    #[verifier::type_invariant]
    spec fn well_formed(self) -> bool {
        self.state.inv()
    }

    /// Starts the protocol: the first action loads the DLL.
    pub fn start() -> (r: (OpenState, OpenAction))
        ensures
            r.0@ == OpenView::initial(),
            r.1 == OpenAction::Perform(OpenStage::LoadLibrary),
            r.0@.inv(),
    {
        let state = OpenView {
            stage: OpenStage::LoadLibrary,
            dll_version: None,
            module_name: None,
            dac_active: None,
            revision: None,
        };
        (OpenState { state }, OpenAction::Perform(OpenStage::LoadLibrary))
    }

    /// Where the protocol stands, with what the module reported.
    pub fn current(&self) -> (v: &OpenView)
        ensures
            *v == self@,
    {
        &self.state
    }

    /// Whether `reply` is an outcome that the current step can have.
    pub fn accepts_reply(&self, reply: &OpenReply) -> (b: bool)
        ensures
            b == open_accepts(self@.stage, *reply),
    {
        match self.state.stage {
            OpenStage::LoadLibrary => matches!(reply, OpenReply::Succeeded) || matches!(reply, OpenReply::LoadFailed(_)),
            OpenStage::GetDllVersion => matches!(reply, OpenReply::DllVersion(_)),
            OpenStage::GetModuleName => matches!(reply, OpenReply::ModuleName(_)) || matches!(reply, OpenReply::Failed),
            OpenStage::GetModuleDescription => matches!(reply, OpenReply::ModuleDescription { .. }) || matches!(reply, OpenReply::Failed),
            OpenStage::QueryLastError(_) => matches!(reply, OpenReply::LastError(_)),
            OpenStage::Done | OpenStage::Aborted => false,
            _ => matches!(reply, OpenReply::Succeeded) || matches!(reply, OpenReply::Failed),
        }
    }

    /// Takes the outcome of the current step and returns what to do next.
    pub fn step(&mut self, reply: OpenReply) -> (action: OpenAction)
        requires
            open_accepts(old(self)@.stage, reply),
        ensures
            old(self)@.next(reply) == Some((final(self)@, action)),
            final(self)@.inv(),
    {
        proof {
            use_type_invariant(&*self);
        }
        let mut state = OpenView {
            stage: OpenStage::Aborted,
            dll_version: None,
            module_name: None,
            dac_active: None,
            revision: None,
        };
        std::mem::swap(&mut state, &mut self.state);
        let action = state.advance(reply);
        self.state = state;
        action
    }
}

/// Every step of the opening protocol keeps [`OpenView::inv`]: the
/// facts the protocol has checked stay recorded as it moves on.
pub proof fn lemma_open_next_preserves_inv(s: OpenView, reply: OpenReply)
    requires
        s.inv(),
        open_accepts(s.stage, reply),
    ensures
        s.next(reply) matches Some((t, _)) && t.inv(),
{
}

/// The virtual slots are tried one after the other from slot 0: a slot
/// that does not answer leads to the next one, and after the last slot the
/// module is reported not found.
pub proof fn lemma_slots_tried_in_order(s: OpenView, slot: u16)
    requires
        s.stage == OpenStage::OpenSlot(slot),
    ensures
        slot + 1 < MAX_VIRTUAL_SLOTS_QUANTITY_LUSBAPI ==> s.next(OpenReply::Failed) == Some(s.at(OpenStage::OpenSlot((slot + 1) as u16))),
        slot + 1 >= MAX_VIRTUAL_SLOTS_QUANTITY_LUSBAPI ==> s.next(OpenReply::Failed) == Some(s.at(OpenStage::QueryLastError(DeviceFailure::NotFound))),
        s.next(OpenReply::Succeeded) == Some(s.at(OpenStage::GetModuleHandle)),
{
}

/// The slot scan starts at slot 0 once the instance is created.
pub proof fn lemma_slot_scan_starts_at_zero(s: OpenView)
    requires
        s.stage == OpenStage::CreateInstance,
    ensures
        s.next(OpenReply::Succeeded) == Some(s.at(OpenStage::OpenSlot(0))),
{
}

/// The version check compares the major version only: a DLL reporting
/// version `v` passes it exactly when the upper 16 bits of `v` are 3, the
/// major version of Lusbapi 3.2 (`0x30002`), whatever its minor version;
/// any other major version is refused with that version in the error.
pub proof fn lemma_version_check_is_major_only(s: OpenView, v: u32)
    requires
        s.stage == OpenStage::GetDllVersion,
    ensures
        (v >> 16u32) == 3 ==> (s.next(OpenReply::DllVersion(v)) matches Some((t, a))
            && a == OpenAction::Perform(OpenStage::ResolveCreateInstance) && t.dll_version == Some(v)),
        (v >> 16u32) != 3 ==> (s.next(OpenReply::DllVersion(v)) matches Some((t, a))
            && a == OpenAction::Fail(OpenFailure::UnsupportedVersion(v)) && t.stage is Aborted),
{
    assert((v >> 16u32) == v / 65536) by (bit_vector);
}

/// The module is reported open only after the DLL's major version matched,
/// the module named itself E140, and its description showed an accessible
/// DAC of revision B or later.
pub proof fn lemma_opened_module_passed_checks(s: OpenView)
    requires
        s.inv(),
        s.stage is Done,
    ensures
        s.dll_version matches Some(v) && dll_version_supported(v),
        s.module_name matches Some(n) && module_name_text(n@) == "E140"@,
        s.dac_active == Some(true),
        s.revision matches Some(r) && r >= 66,
{
}

} // verus!
