//! What can fail, in one type: every engine's error as it is handed back
//! to the caller, unchanged.
use crate::message::DecodeError;
use crate::pipeline::PipelineError;
use crate::recording::RecordingStateError;
use crate::systemd::UnitControlError;
use crate::vcs::VcsError;
use vstd::prelude::*;

verus! {

/// Why a request got no reply of its own.
#[derive(Debug, PartialEq, Eq)]
pub enum ControlError {
    Decode(DecodeError),
    Vcs(VcsError),
    Pipeline(PipelineError),
    UnitControl(UnitControlError),
    RecordingState(RecordingStateError),
}

/// The name of the kind of an error, as the error reply bears it.
pub open spec fn kind_text(error: ControlError) -> Seq<char> {
    match error {
        ControlError::Decode(DecodeError::UnroutableSubject) => "UnroutableSubject"@,
        ControlError::Decode(DecodeError::PayloadDeserialization(_)) => "PayloadDeserialization"@,
        ControlError::Vcs(VcsError::Io) => "VcsError.Io"@,
        ControlError::Vcs(VcsError::GitOperation(_)) => "VcsError.GitOperation"@,
        ControlError::Vcs(VcsError::Uninitialized) => "VcsError.Uninitialized"@,
        ControlError::Vcs(VcsError::RevertConflict) => "VcsError.RevertConflict"@,
        ControlError::Pipeline(PipelineError::Fatal(_)) => "PipelineProvisioning.Fatal"@,
        ControlError::UnitControl(UnitControlError::BusTransport(_)) =>
            "UnitControlError.BusTransport"@,
        ControlError::UnitControl(UnitControlError::UnknownUnitState) =>
            "UnitControlError.UnknownUnitState"@,
        ControlError::UnitControl(UnitControlError::UnknownChangeKind) =>
            "UnitControlError.UnknownChangeKind"@,
        ControlError::RecordingState(RecordingStateError::NoCurrentRecording) =>
            "RecordingStateError.NoCurrentRecording"@,
        ControlError::RecordingState(RecordingStateError::AlreadyRecording) =>
            "RecordingStateError.AlreadyRecording"@,
        ControlError::RecordingState(RecordingStateError::DuplicateId) =>
            "RecordingStateError.DuplicateId"@,
        ControlError::RecordingState(RecordingStateError::UnknownRecording) =>
            "RecordingStateError.UnknownRecording"@,
    }
}

impl ControlError {
    /// The name of the kind of the error.
    pub fn kind(&self) -> (name: &'static str)
        ensures
            name@ == kind_text(*self),
    {
        match self {
            ControlError::Decode(DecodeError::UnroutableSubject) => "UnroutableSubject",
            ControlError::Decode(DecodeError::PayloadDeserialization(_)) =>
                "PayloadDeserialization",
            ControlError::Vcs(VcsError::Io) => "VcsError.Io",
            ControlError::Vcs(VcsError::GitOperation(_)) => "VcsError.GitOperation",
            ControlError::Vcs(VcsError::Uninitialized) => "VcsError.Uninitialized",
            ControlError::Vcs(VcsError::RevertConflict) => "VcsError.RevertConflict",
            ControlError::Pipeline(PipelineError::Fatal(_)) => "PipelineProvisioning.Fatal",
            ControlError::UnitControl(UnitControlError::BusTransport(_)) =>
                "UnitControlError.BusTransport",
            ControlError::UnitControl(UnitControlError::UnknownUnitState) =>
                "UnitControlError.UnknownUnitState",
            ControlError::UnitControl(UnitControlError::UnknownChangeKind) =>
                "UnitControlError.UnknownChangeKind",
            ControlError::RecordingState(RecordingStateError::NoCurrentRecording) =>
                "RecordingStateError.NoCurrentRecording",
            ControlError::RecordingState(RecordingStateError::AlreadyRecording) =>
                "RecordingStateError.AlreadyRecording",
            ControlError::RecordingState(RecordingStateError::DuplicateId) =>
                "RecordingStateError.DuplicateId",
            ControlError::RecordingState(RecordingStateError::UnknownRecording) =>
                "RecordingStateError.UnknownRecording",
        }
    }
}

} // verus!
