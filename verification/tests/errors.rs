use printnanny::errors::ControlError;
use printnanny::message::{DecodeError, PayloadFault};
use printnanny::pipeline::{PipelineError, PipelineFault};
use printnanny::recording::RecordingStateError;
use printnanny::systemd::UnitControlError;
use printnanny::vcs::{GitFault, VcsError};

#[test]
fn every_error_bears_the_name_of_its_kind() {
    let table = vec![
        (ControlError::Decode(DecodeError::UnroutableSubject), "UnroutableSubject"),
        (
            ControlError::Decode(DecodeError::PayloadDeserialization(PayloadFault::Syntax)),
            "PayloadDeserialization",
        ),
        (
            ControlError::Decode(DecodeError::PayloadDeserialization(PayloadFault::Schema)),
            "PayloadDeserialization",
        ),
        (ControlError::Vcs(VcsError::Io), "VcsError.Io"),
        (
            ControlError::Vcs(VcsError::GitOperation(GitFault::UnknownCommit)),
            "VcsError.GitOperation",
        ),
        (
            ControlError::Vcs(VcsError::GitOperation(GitFault::InvalidCommitId)),
            "VcsError.GitOperation",
        ),
        (ControlError::Vcs(VcsError::Uninitialized), "VcsError.Uninitialized"),
        (ControlError::Vcs(VcsError::RevertConflict), "VcsError.RevertConflict"),
        (
            ControlError::Pipeline(PipelineError::Fatal(PipelineFault::BadStatus(500))),
            "PipelineProvisioning.Fatal",
        ),
        (
            ControlError::Pipeline(PipelineError::Fatal(PipelineFault::Transport)),
            "PipelineProvisioning.Fatal",
        ),
        (
            ControlError::UnitControl(UnitControlError::BusTransport("gone".to_string())),
            "UnitControlError.BusTransport",
        ),
        (
            ControlError::UnitControl(UnitControlError::UnknownUnitState),
            "UnitControlError.UnknownUnitState",
        ),
        (
            ControlError::UnitControl(UnitControlError::UnknownChangeKind),
            "UnitControlError.UnknownChangeKind",
        ),
        (
            ControlError::RecordingState(RecordingStateError::NoCurrentRecording),
            "RecordingStateError.NoCurrentRecording",
        ),
        (
            ControlError::RecordingState(RecordingStateError::AlreadyRecording),
            "RecordingStateError.AlreadyRecording",
        ),
        (
            ControlError::RecordingState(RecordingStateError::DuplicateId),
            "RecordingStateError.DuplicateId",
        ),
        (
            ControlError::RecordingState(RecordingStateError::UnknownRecording),
            "RecordingStateError.UnknownRecording",
        ),
    ];
    for (error, kind) in table {
        assert_eq!(error.kind(), kind);
    }
}
