//! The adapter to the init system: which calls each operation makes on the
//! bus, and how what comes back is turned into the closed vocabulary of the
//! replies. A word outside that vocabulary is an error, never coerced.
use crate::json::texts_view;
use crate::payload::{
    SystemdManagerUnitFilesRequest,
    };
use crate::text::same_text;
use vstd::prelude::*;

verus! {

/// What the init system did to a unit file's link.
#[derive(Clone, Copy, PartialEq, Eq, Structural, Debug)]
pub enum SystemdUnitChangeState {
    Symlink,
    Unlink,
}

/// The state of a unit's file.
#[derive(Clone, Copy, PartialEq, Eq, Structural, Debug)]
pub enum SystemdUnitFileState {
    Enabled,
    EnabledMinusRuntime,
    Linked,
    LinkedMinusRuntime,
    Masked,
    MaskedMinusRuntime,
    Static,
    Disabled,
    Invalid,
}

/// Whether a unit runs.
#[derive(Clone, Copy, PartialEq, Eq, Structural, Debug)]
pub enum SystemdUnitActiveState {
    Active,
    Activating,
    Deactivating,
    Failed,
    Inactive,
    Reloading,
}

/// Whether a unit's file was read.
#[derive(Clone, Copy, PartialEq, Eq, Structural, Debug)]
pub enum SystemdUnitLoadState {
    Loaded,
    Error,
    Masked,
    NotMinusFound,
}

/// Why an operation on units failed.
#[derive(Debug, PartialEq, Eq)]
pub enum UnitControlError {
    /// The call on the bus failed; the text is the bus's own.
    BusTransport(String),
    /// The init system named a state that this adapter does not know.
    UnknownUnitState,
    /// The init system named a kind of change that this adapter does not
    /// know.
    UnknownChangeKind,
}

/// A call on the bus that failed.
#[derive(Debug, PartialEq, Eq)]
pub struct BusFault {
    pub message: String,
}

impl SystemdUnitChangeState {
    pub open spec fn spec_from_text(text: Seq<char>) -> Option<SystemdUnitChangeState> {
        if text == "symlink"@ {
            Some(SystemdUnitChangeState::Symlink)
        } else if text == "unlink"@ {
            Some(SystemdUnitChangeState::Unlink)
        } else {
            None
        }
    }

    /// The kind of change that the init system's word names.
    pub fn from_text(text: &str) -> (r: Option<SystemdUnitChangeState>)
        ensures
            r == Self::spec_from_text(text@),
    {
        if same_text(text, "symlink") {
            Some(SystemdUnitChangeState::Symlink)
        } else if same_text(text, "unlink") {
            Some(SystemdUnitChangeState::Unlink)
        } else {
            None
        }
    }
}

impl SystemdUnitFileState {
    pub open spec fn spec_from_text(text: Seq<char>) -> Option<SystemdUnitFileState> {
        if text == "enabled"@ {
            Some(SystemdUnitFileState::Enabled)
        } else if text == "enabled-runtime"@ {
            Some(SystemdUnitFileState::EnabledMinusRuntime)
        } else if text == "linked"@ {
            Some(SystemdUnitFileState::Linked)
        } else if text == "linked-runtime"@ {
            Some(SystemdUnitFileState::LinkedMinusRuntime)
        } else if text == "masked"@ {
            Some(SystemdUnitFileState::Masked)
        } else if text == "masked-runtime"@ {
            Some(SystemdUnitFileState::MaskedMinusRuntime)
        } else if text == "static"@ {
            Some(SystemdUnitFileState::Static)
        } else if text == "disabled"@ {
            Some(SystemdUnitFileState::Disabled)
        } else if text == "invalid"@ {
            Some(SystemdUnitFileState::Invalid)
        } else {
            None
        }
    }

    /// The state that the init system's word names.
    pub fn from_text(text: &str) -> (r: Option<SystemdUnitFileState>)
        ensures
            r == Self::spec_from_text(text@),
    {
        if same_text(text, "enabled") {
            Some(SystemdUnitFileState::Enabled)
        } else if same_text(text, "enabled-runtime") {
            Some(SystemdUnitFileState::EnabledMinusRuntime)
        } else if same_text(text, "linked") {
            Some(SystemdUnitFileState::Linked)
        } else if same_text(text, "linked-runtime") {
            Some(SystemdUnitFileState::LinkedMinusRuntime)
        } else if same_text(text, "masked") {
            Some(SystemdUnitFileState::Masked)
        } else if same_text(text, "masked-runtime") {
            Some(SystemdUnitFileState::MaskedMinusRuntime)
        } else if same_text(text, "static") {
            Some(SystemdUnitFileState::Static)
        } else if same_text(text, "disabled") {
            Some(SystemdUnitFileState::Disabled)
        } else if same_text(text, "invalid") {
            Some(SystemdUnitFileState::Invalid)
        } else {
            None
        }
    }
}

impl SystemdUnitActiveState {
    pub open spec fn spec_from_text(text: Seq<char>) -> Option<SystemdUnitActiveState> {
        if text == "active"@ {
            Some(SystemdUnitActiveState::Active)
        } else if text == "activating"@ {
            Some(SystemdUnitActiveState::Activating)
        } else if text == "deactivating"@ {
            Some(SystemdUnitActiveState::Deactivating)
        } else if text == "failed"@ {
            Some(SystemdUnitActiveState::Failed)
        } else if text == "inactive"@ {
            Some(SystemdUnitActiveState::Inactive)
        } else if text == "reloading"@ {
            Some(SystemdUnitActiveState::Reloading)
        } else {
            None
        }
    }

    /// The state that the init system's word names.
    pub fn from_text(text: &str) -> (r: Option<SystemdUnitActiveState>)
        ensures
            r == Self::spec_from_text(text@),
    {
        if same_text(text, "active") {
            Some(SystemdUnitActiveState::Active)
        } else if same_text(text, "activating") {
            Some(SystemdUnitActiveState::Activating)
        } else if same_text(text, "deactivating") {
            Some(SystemdUnitActiveState::Deactivating)
        } else if same_text(text, "failed") {
            Some(SystemdUnitActiveState::Failed)
        } else if same_text(text, "inactive") {
            Some(SystemdUnitActiveState::Inactive)
        } else if same_text(text, "reloading") {
            Some(SystemdUnitActiveState::Reloading)
        } else {
            None
        }
    }
}

impl SystemdUnitLoadState {
    pub open spec fn spec_from_text(text: Seq<char>) -> Option<SystemdUnitLoadState> {
        if text == "loaded"@ {
            Some(SystemdUnitLoadState::Loaded)
        } else if text == "error"@ {
            Some(SystemdUnitLoadState::Error)
        } else if text == "masked"@ {
            Some(SystemdUnitLoadState::Masked)
        } else if text == "not-found"@ {
            Some(SystemdUnitLoadState::NotMinusFound)
        } else {
            None
        }
    }

    /// The state that the init system's word names.
    pub fn from_text(text: &str) -> (r: Option<SystemdUnitLoadState>)
        ensures
            r == Self::spec_from_text(text@),
    {
        if same_text(text, "loaded") {
            Some(SystemdUnitLoadState::Loaded)
        } else if same_text(text, "error") {
            Some(SystemdUnitLoadState::Error)
        } else if same_text(text, "masked") {
            Some(SystemdUnitLoadState::Masked)
        } else if same_text(text, "not-found") {
            Some(SystemdUnitLoadState::NotMinusFound)
        } else {
            None
        }
    }
}

/// One change to a unit file's link, in the init system's words.
#[derive(Debug, PartialEq, Eq)]
pub struct UnitFileChange {
    pub kind: String,
    pub file: String,
    pub destination: String,
}

/// One change to a unit file's link.
#[derive(Debug, PartialEq, Eq)]
pub struct SystemdUnitChange {
    pub change: SystemdUnitChangeState,
    pub file: String,
    pub destination: String,
}

pub struct SystemdUnitChangeView {
    pub change: SystemdUnitChangeState,
    pub file: Seq<char>,
    pub destination: Seq<char>,
}

impl View for SystemdUnitChange {
    type V = SystemdUnitChangeView;

    open spec fn view(&self) -> SystemdUnitChangeView {
        SystemdUnitChangeView {
            change: self.change,
            file: self.file@,
            destination: self.destination@,
        }
    }
}

/// Whether the kind of every reported change is known.
pub open spec fn all_kinds_known(raw: Seq<UnitFileChange>) -> bool {
    forall|i: int|
        0 <= i < raw.len() ==> SystemdUnitChangeState::spec_from_text((#[trigger] raw[i]).kind@)
            is Some
}

/// A reported change in the closed vocabulary.
pub open spec fn translated(raw: UnitFileChange) -> SystemdUnitChangeView {
    SystemdUnitChangeView {
        change: SystemdUnitChangeState::spec_from_text(raw.kind@)->0,
        file: raw.file@,
        destination: raw.destination@,
    }
}

/// Turns the reported changes into the closed vocabulary, one for one and
/// in order; a single unknown kind fails the whole.
pub fn translate_changes(raw: &Vec<UnitFileChange>) -> (r: Result<
    Vec<SystemdUnitChange>,
    UnitControlError,
>)
    ensures
        r is Ok <==> all_kinds_known(raw@),
        r matches Ok(changes) ==> changes@.len() == raw@.len() && forall|i: int|
            0 <= i < raw@.len() ==> (#[trigger] changes@[i])@ == translated(raw@[i]),
        r matches Err(e) ==> e is UnknownChangeKind,
{
    let mut changes: Vec<SystemdUnitChange> = Vec::new();
    let mut i: usize = 0;
    while i < raw.len()
        invariant
            i <= raw.len(),
            changes@.len() == i,
            forall|k: int|
                0 <= k < i ==> SystemdUnitChangeState::spec_from_text((#[trigger] raw@[k]).kind@)
                    is Some,
            forall|k: int| 0 <= k < i ==> (#[trigger] changes@[k])@ == translated(raw@[k]),
        decreases raw.len() - i,
    {
        match SystemdUnitChangeState::from_text(raw[i].kind.as_str()) {
            Some(change) => {
                changes.push(
                    SystemdUnitChange {
                        change,
                        file: raw[i].file.clone(),
                        destination: raw[i].destination.clone(),
                    },
                );
            },
            None => {
                return Err(UnitControlError::UnknownChangeKind);
            },
        }
        i = i + 1;
    }
    Ok(changes)
}

/// How a queued job treats the jobs that are queued already.
#[derive(Clone, Copy, PartialEq, Eq, Structural, Debug)]
pub enum JobMode {
    /// Replace conflicting jobs.
    Replace,
    /// Fail if a queued job would have to change.
    Fail,
}

impl JobMode {
    pub open spec fn spec_name(self) -> Seq<char> {
        match self {
            JobMode::Replace => "replace"@,
            JobMode::Fail => "fail"@,
        }
    }

    /// The word for the mode on the bus.
    pub fn name(self) -> (name: &'static str)
        ensures
            name@ == self.spec_name(),
    {
        match self {
            JobMode::Replace => "replace",
            JobMode::Fail => "fail",
        }
    }
}

/// A call on the init system's manager.
#[derive(Debug, PartialEq, Eq)]
pub enum BusCall {
    EnableUnitFiles { files: Vec<String>, runtime: bool, force: bool },
    DisableUnitFiles { files: Vec<String>, runtime: bool },
    /// Reload the manager's configuration.
    Reload,
    StartUnit { name: String, mode: JobMode },
    StopUnit { name: String, mode: JobMode },
    RestartUnit { name: String, mode: JobMode },
    /// Load the unit if need be and hand out its object.
    LoadUnit { name: String },
    GetUnitFileState { name: String },
}

pub enum BusCallView {
    EnableUnitFiles { files: Seq<Seq<char>>, runtime: bool, force: bool },
    DisableUnitFiles { files: Seq<Seq<char>>, runtime: bool },
    Reload,
    StartUnit { name: Seq<char>, mode: JobMode },
    StopUnit { name: Seq<char>, mode: JobMode },
    RestartUnit { name: Seq<char>, mode: JobMode },
    LoadUnit { name: Seq<char> },
    GetUnitFileState { name: Seq<char> },
}

impl View for BusCall {
    type V = BusCallView;

    open spec fn view(&self) -> BusCallView {
        match self {
            BusCall::EnableUnitFiles { files, runtime, force } => BusCallView::EnableUnitFiles {
                files: texts_view(files@),
                runtime: *runtime,
                force: *force,
            },
            BusCall::DisableUnitFiles { files, runtime } => BusCallView::DisableUnitFiles {
                files: texts_view(files@),
                runtime: *runtime,
            },
            BusCall::Reload => BusCallView::Reload,
            BusCall::StartUnit { name, mode } => BusCallView::StartUnit { name: name@, mode: *mode },
            BusCall::StopUnit { name, mode } => BusCallView::StopUnit { name: name@, mode: *mode },
            BusCall::RestartUnit { name, mode } => BusCallView::RestartUnit {
                name: name@,
                mode: *mode,
            },
            BusCall::LoadUnit { name } => BusCallView::LoadUnit { name: name@ },
            BusCall::GetUnitFileState { name } => BusCallView::GetUnitFileState { name: name@ },
        }
    }
}

/// The views of calls in order.
pub open spec fn calls_view(calls: Seq<BusCall>) -> Seq<BusCallView> {
    calls.map_values(|c: BusCall| c@)
}

/// A copy of texts.
pub fn copy_texts(texts: &Vec<String>) -> (r: Vec<String>)
    ensures
        texts_view(r@) == texts_view(texts@),
{
    let mut r: Vec<String> = Vec::new();
    let mut i: usize = 0;
    while i < texts.len()
        invariant
            i <= texts.len(),
            r@.len() == i,
            forall|k: int| 0 <= k < i ==> (#[trigger] r@[k])@ == texts@[k]@,
        decreases texts.len() - i,
    {
        r.push(texts[i].clone());
        i = i + 1;
    }
    assert(texts_view(r@) =~= texts_view(texts@));
    r
}

/// The unit operations that act on one unit.
#[derive(Clone, Copy, PartialEq, Eq, Structural, Debug)]
pub enum UnitJob {
    Start,
    Stop,
    Restart,
}

/// Enabling takes two calls: enable the files, for good and without force,
/// then reload the manager at once, so that the change holds when the
/// operation returns.
pub fn enable_units_calls(request: &SystemdManagerUnitFilesRequest) -> (calls: Vec<BusCall>)
    ensures
        calls_view(calls@) == seq![
            BusCallView::EnableUnitFiles { files: request@.files, runtime: false, force: false },
            BusCallView::Reload,
        ],
{
    let mut calls: Vec<BusCall> = Vec::new();
    calls.push(
        BusCall::EnableUnitFiles { files: copy_texts(&request.files), runtime: false, force: false },
    );
    calls.push(BusCall::Reload);
    assert(calls_view(calls@) =~= seq![calls@[0]@, calls@[1]@]);
    calls
}

/// Disabling takes two calls: disable the files, for good, then reload the
/// manager at once.
pub fn disable_units_calls(request: &SystemdManagerUnitFilesRequest) -> (calls: Vec<BusCall>)
    ensures
        calls_view(calls@) == seq![
            BusCallView::DisableUnitFiles { files: request@.files, runtime: false },
            BusCallView::Reload,
        ],
{
    let mut calls: Vec<BusCall> = Vec::new();
    calls.push(BusCall::DisableUnitFiles { files: copy_texts(&request.files), runtime: false });
    calls.push(BusCall::Reload);
    assert(calls_view(calls@) =~= seq![calls@[0]@, calls@[1]@]);
    calls
}

/// What a job on one unit asks of the bus first.
pub open spec fn job_call(job: UnitJob, name: Seq<char>) -> BusCallView {
    match job {
        UnitJob::Start => BusCallView::StartUnit { name, mode: JobMode::Replace },
        UnitJob::Stop => BusCallView::StopUnit { name, mode: JobMode::Replace },
        UnitJob::Restart => BusCallView::RestartUnit { name, mode: JobMode::Replace },
    }
}

/// A job on one unit takes two calls: queue the job, replacing what
/// conflicts with it, then load the unit to report on it.
pub fn unit_job_calls(job: UnitJob, unit_name: &str) -> (calls: Vec<BusCall>)
    ensures
        calls_view(calls@) == seq![
            job_call(job, unit_name@),
            BusCallView::LoadUnit { name: unit_name@ },
        ],
{
    let mut calls: Vec<BusCall> = Vec::new();
    let first = match job {
        UnitJob::Start => BusCall::StartUnit { name: unit_name.to_owned(), mode: JobMode::Replace },
        UnitJob::Stop => BusCall::StopUnit { name: unit_name.to_owned(), mode: JobMode::Replace },
        UnitJob::Restart => BusCall::RestartUnit {
            name: unit_name.to_owned(),
            mode: JobMode::Replace,
        },
    };
    calls.push(first);
    calls.push(BusCall::LoadUnit { name: unit_name.to_owned() });
    assert(calls_view(calls@) =~= seq![calls@[0]@, calls@[1]@]);
    calls
}

/// The upload of a recording is started so that it fails rather than
/// change a job that is queued already.
pub fn sync_unit_call(unit_name: &str) -> (call: BusCall)
    ensures
        call@ == (BusCallView::StartUnit { name: unit_name@, mode: JobMode::Fail }),
{
    BusCall::StartUnit { name: unit_name.to_owned(), mode: JobMode::Fail }
}

/// A managed unit.
#[derive(Debug, PartialEq, Eq)]
pub struct SystemdUnit {
    pub id: String,
    pub fragment_path: String,
    pub active_state: SystemdUnitActiveState,
    pub load_state: SystemdUnitLoadState,
    pub unit_file_state: SystemdUnitFileState,
}

pub struct SystemdUnitView {
    pub id: Seq<char>,
    pub fragment_path: Seq<char>,
    pub active_state: SystemdUnitActiveState,
    pub load_state: SystemdUnitLoadState,
    pub unit_file_state: SystemdUnitFileState,
}

impl View for SystemdUnit {
    type V = SystemdUnitView;

    open spec fn view(&self) -> SystemdUnitView {
        SystemdUnitView {
            id: self.id@,
            fragment_path: self.fragment_path@,
            active_state: self.active_state,
            load_state: self.load_state,
            unit_file_state: self.unit_file_state,
        }
    }
}

/// The properties of a unit, in the init system's words.
#[derive(Debug, PartialEq, Eq)]
pub struct UnitProperties {
    pub id: String,
    pub fragment_path: String,
    pub active_state: String,
    pub load_state: String,
    pub unit_file_state: String,
}

/// The unit that the properties describe, where each state is known.
pub open spec fn unit_of(properties: UnitProperties) -> Option<SystemdUnitView> {
    match (
        SystemdUnitActiveState::spec_from_text(properties.active_state@),
        SystemdUnitLoadState::spec_from_text(properties.load_state@),
        SystemdUnitFileState::spec_from_text(properties.unit_file_state@),
    ) {
        (Some(active_state), Some(load_state), Some(unit_file_state)) => Some(
            SystemdUnitView {
                id: properties.id@,
                fragment_path: properties.fragment_path@,
                active_state,
                load_state,
                unit_file_state,
            },
        ),
        _ => None,
    }
}

/// A failed call as this adapter's error, with the bus's own text.
pub fn bus_error(fault: BusFault) -> (e: UnitControlError)
    ensures
        e matches UnitControlError::BusTransport(message) && message@ == fault.message@,
{
    UnitControlError::BusTransport(fault.message)
}

/// Reads a unit's properties: each of the three states has to be a word
/// that this adapter knows.
pub fn unit_from_properties(properties: Result<UnitProperties, BusFault>) -> (r: Result<
    SystemdUnit,
    UnitControlError,
>)
    ensures
        match properties {
            Err(fault) => r matches Err(UnitControlError::BusTransport(message)) && message@
                == fault.message@,
            Ok(p) => match unit_of(p) {
                Some(unit) => r matches Ok(u) && u@ == unit,
                None => r matches Err(e) && e is UnknownUnitState,
            },
        },
{
    match properties {
        Err(fault) => Err(bus_error(fault)),
        Ok(p) => {
            let active_state = match SystemdUnitActiveState::from_text(p.active_state.as_str()) {
                Some(s) => s,
                None => {
                    return Err(UnitControlError::UnknownUnitState);
                },
            };
            let load_state = match SystemdUnitLoadState::from_text(p.load_state.as_str()) {
                Some(s) => s,
                None => {
                    return Err(UnitControlError::UnknownUnitState);
                },
            };
            let unit_file_state = match SystemdUnitFileState::from_text(
                p.unit_file_state.as_str(),
            ) {
                Some(s) => s,
                None => {
                    return Err(UnitControlError::UnknownUnitState);
                },
            };
            Ok(
                SystemdUnit {
                    id: p.id,
                    fragment_path: p.fragment_path,
                    active_state,
                    load_state,
                    unit_file_state,
                },
            )
        },
    }
}

/// Reads the state of a unit's file from the bus's answer. A failed call,
/// as for a unit that does not exist, and an unknown word each give their
/// error; nothing else does.
pub fn unit_file_state_from_bus(answer: Result<String, BusFault>) -> (r: Result<
    SystemdUnitFileState,
    UnitControlError,
>)
    ensures
        match answer {
            Err(fault) => r matches Err(UnitControlError::BusTransport(message)) && message@
                == fault.message@,
            Ok(text) => match SystemdUnitFileState::spec_from_text(text@) {
                Some(state) => r matches Ok(s) && s == state,
                None => r matches Err(e) && e is UnknownUnitState,
            },
        },
{
    match answer {
        Err(fault) => Err(bus_error(fault)),
        Ok(text) => match SystemdUnitFileState::from_text(text.as_str()) {
            Some(state) => Ok(state),
            None => Err(UnitControlError::UnknownUnitState),
        },
    }
}

/// Reads the changes that enabling or disabling reports.
pub fn changes_from_bus(answer: Result<Vec<UnitFileChange>, BusFault>) -> (r: Result<
    Vec<SystemdUnitChange>,
    UnitControlError,
>)
    ensures
        match answer {
            Err(fault) => r matches Err(UnitControlError::BusTransport(message)) && message@
                == fault.message@,
            Ok(raw) => {
                &&& r is Ok <==> all_kinds_known(raw@)
                &&& r matches Ok(changes) ==> changes@.len() == raw@.len() && forall|i: int|
                    0 <= i < raw@.len() ==> (#[trigger] changes@[i])@ == translated(raw@[i])
                &&& r matches Err(e) ==> e is UnknownChangeKind
            },
        },
{
    match answer {
        Err(fault) => Err(bus_error(fault)),
        Ok(raw) => translate_changes(&raw),
    }
}

} // verus!
