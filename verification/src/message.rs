//! Requests: one variant for each subject, read from the subject's
//! pattern and the payload's bytes.
use crate::json::{json_document, parse, JsonDoc, JsonValue};
use crate::payload::{
    apply_request_from_json, apply_request_of, cloud_auth_from_json, cloud_auth_of,
    crash_report_from_json, crash_report_of, revert_request_from_json, revert_request_of,
    unit_files_from_json, unit_files_of, unit_name_from_json, unit_name_of,
    video_stream_from_json, video_stream_of, CrashReportOsLogsRequest,
    CrashReportOsLogsRequestView, PrintNannyCloudAuthRequest, PrintNannyCloudAuthRequestView,
    SettingsFileApplyRequest, SettingsFileApplyRequestView, SettingsFileRevertRequest,
    SettingsFileRevertRequestView, SystemdManagerGetUnitRequest,
    SystemdManagerRestartUnitRequest, SystemdManagerStartUnitRequest,
    SystemdManagerStopUnitRequest, SystemdManagerUnitFilesRequest,
    SystemdManagerUnitFilesRequestView,
};
use crate::subject::Subject;
use crate::text::{replace_text, replaced};
use crate::video::{VideoStreamSettings, VideoStreamSettingsView};
use vstd::prelude::*;

verus! {

/// Why a payload was not read.
#[derive(Clone, Copy, PartialEq, Eq, Structural, Debug)]
pub enum PayloadFault {
    /// The bytes hold no JSON document.
    Syntax,
    /// The document does not have the shape that the subject fixes.
    Schema,
}

/// Why no request was read.
#[derive(Clone, Copy, PartialEq, Eq, Structural, Debug)]
pub enum DecodeError {
    /// The pattern names no subject.
    UnroutableSubject,
    /// The subject is known, the payload is not one of its requests.
    PayloadDeserialization(PayloadFault),
}

/// A request, typed by its subject.
#[derive(Debug, PartialEq, Eq)]
pub enum NatsRequest {
    CameraRecordingLoadRequest,
    CameraRecordingStartRequest,
    CameraRecordingStopRequest,
    CameraLoadRequest,
    PrintNannyCloudSyncRequest,
    CrashReportOsLogsRequest(CrashReportOsLogsRequest),
    DeviceInfoLoadRequest,
    PrintNannyCloudAuthRequest(PrintNannyCloudAuthRequest),
    SettingsFileLoadRequest,
    SettingsFileApplyRequest(SettingsFileApplyRequest),
    SettingsFileRevertRequest(SettingsFileRevertRequest),
    CameraSettingsFileApplyRequest(VideoStreamSettings),
    CameraSettingsFileLoadRequest,
    SystemdManagerDisableUnitsRequest(SystemdManagerUnitFilesRequest),
    SystemdManagerEnableUnitsRequest(SystemdManagerUnitFilesRequest),
    SystemdManagerGetUnitRequest(SystemdManagerGetUnitRequest),
    SystemdManagerGetUnitFileStateRequest(SystemdManagerGetUnitRequest),
    SystemdManagerRestartUnitRequest(SystemdManagerRestartUnitRequest),
    SystemdManagerStartUnitRequest(SystemdManagerStartUnitRequest),
    SystemdManagerStopUnitRequest(SystemdManagerStopUnitRequest),
}

pub enum NatsRequestView {
    CameraRecordingLoadRequest,
    CameraRecordingStartRequest,
    CameraRecordingStopRequest,
    CameraLoadRequest,
    PrintNannyCloudSyncRequest,
    CrashReportOsLogsRequest(CrashReportOsLogsRequestView),
    DeviceInfoLoadRequest,
    PrintNannyCloudAuthRequest(PrintNannyCloudAuthRequestView),
    SettingsFileLoadRequest,
    SettingsFileApplyRequest(SettingsFileApplyRequestView),
    SettingsFileRevertRequest(SettingsFileRevertRequestView),
    CameraSettingsFileApplyRequest(VideoStreamSettingsView),
    CameraSettingsFileLoadRequest,
    SystemdManagerDisableUnitsRequest(SystemdManagerUnitFilesRequestView),
    SystemdManagerEnableUnitsRequest(SystemdManagerUnitFilesRequestView),
    SystemdManagerGetUnitRequest(Seq<char>),
    SystemdManagerGetUnitFileStateRequest(Seq<char>),
    SystemdManagerRestartUnitRequest(Seq<char>),
    SystemdManagerStartUnitRequest(Seq<char>),
    SystemdManagerStopUnitRequest(Seq<char>),
}

impl View for NatsRequest {
    type V = NatsRequestView;

    open spec fn view(&self) -> NatsRequestView {
        match self {
            NatsRequest::CameraRecordingLoadRequest => NatsRequestView::CameraRecordingLoadRequest,
            NatsRequest::CameraRecordingStartRequest => NatsRequestView::CameraRecordingStartRequest,
            NatsRequest::CameraRecordingStopRequest => NatsRequestView::CameraRecordingStopRequest,
            NatsRequest::CameraLoadRequest => NatsRequestView::CameraLoadRequest,
            NatsRequest::PrintNannyCloudSyncRequest => NatsRequestView::PrintNannyCloudSyncRequest,
            NatsRequest::CrashReportOsLogsRequest(request) => NatsRequestView::CrashReportOsLogsRequest(request@),
            NatsRequest::DeviceInfoLoadRequest => NatsRequestView::DeviceInfoLoadRequest,
            NatsRequest::PrintNannyCloudAuthRequest(request) => NatsRequestView::PrintNannyCloudAuthRequest(request@),
            NatsRequest::SettingsFileLoadRequest => NatsRequestView::SettingsFileLoadRequest,
            NatsRequest::SettingsFileApplyRequest(request) => NatsRequestView::SettingsFileApplyRequest(request@),
            NatsRequest::SettingsFileRevertRequest(request) => NatsRequestView::SettingsFileRevertRequest(request@),
            NatsRequest::CameraSettingsFileApplyRequest(request) => NatsRequestView::CameraSettingsFileApplyRequest(request@),
            NatsRequest::CameraSettingsFileLoadRequest => NatsRequestView::CameraSettingsFileLoadRequest,
            NatsRequest::SystemdManagerDisableUnitsRequest(request) => NatsRequestView::SystemdManagerDisableUnitsRequest(request@),
            NatsRequest::SystemdManagerEnableUnitsRequest(request) => NatsRequestView::SystemdManagerEnableUnitsRequest(request@),
            NatsRequest::SystemdManagerGetUnitRequest(request) => NatsRequestView::SystemdManagerGetUnitRequest(request@),
            NatsRequest::SystemdManagerGetUnitFileStateRequest(request) => NatsRequestView::SystemdManagerGetUnitFileStateRequest(request@),
            NatsRequest::SystemdManagerRestartUnitRequest(request) => NatsRequestView::SystemdManagerRestartUnitRequest(request@),
            NatsRequest::SystemdManagerStartUnitRequest(request) => NatsRequestView::SystemdManagerStartUnitRequest(request@),
            NatsRequest::SystemdManagerStopUnitRequest(request) => NatsRequestView::SystemdManagerStopUnitRequest(request@),
        }
    }
}

impl NatsRequestView {
    /// The subject under which the request arrives.
    pub open spec fn subject(self) -> Subject {
        match self {
            NatsRequestView::CameraRecordingLoadRequest => Subject::CameraRecordingLoad,
            NatsRequestView::CameraRecordingStartRequest => Subject::CameraRecordingStart,
            NatsRequestView::CameraRecordingStopRequest => Subject::CameraRecordingStop,
            NatsRequestView::CameraLoadRequest => Subject::CamerasLoad,
            NatsRequestView::PrintNannyCloudSyncRequest => Subject::CloudSync,
            NatsRequestView::CrashReportOsLogsRequest(_) => Subject::CrashReportOsLogs,
            NatsRequestView::DeviceInfoLoadRequest => Subject::DeviceInfoLoad,
            NatsRequestView::PrintNannyCloudAuthRequest(_) => Subject::CloudAuth,
            NatsRequestView::SettingsFileLoadRequest => Subject::SettingsFileLoad,
            NatsRequestView::SettingsFileApplyRequest(_) => Subject::SettingsFileApply,
            NatsRequestView::SettingsFileRevertRequest(_) => Subject::SettingsFileRevert,
            NatsRequestView::CameraSettingsFileApplyRequest(_) => Subject::CameraSettingsApply,
            NatsRequestView::CameraSettingsFileLoadRequest => Subject::CameraSettingsLoad,
            NatsRequestView::SystemdManagerDisableUnitsRequest(_) => Subject::DisableUnit,
            NatsRequestView::SystemdManagerEnableUnitsRequest(_) => Subject::EnableUnit,
            NatsRequestView::SystemdManagerGetUnitRequest(_) => Subject::GetUnit,
            NatsRequestView::SystemdManagerGetUnitFileStateRequest(_) => Subject::GetUnitFileState,
            NatsRequestView::SystemdManagerRestartUnitRequest(_) => Subject::RestartUnit,
            NatsRequestView::SystemdManagerStartUnitRequest(_) => Subject::StartUnit,
            NatsRequestView::SystemdManagerStopUnitRequest(_) => Subject::StopUnit,
        }
    }
}

/// The request of a subject that carries no payload.
pub open spec fn bare_request(subject: Subject) -> NatsRequestView {
    match subject {
        Subject::CameraRecordingLoad => NatsRequestView::CameraRecordingLoadRequest,
        Subject::CameraRecordingStart => NatsRequestView::CameraRecordingStartRequest,
        Subject::CameraRecordingStop => NatsRequestView::CameraRecordingStopRequest,
        Subject::CamerasLoad => NatsRequestView::CameraLoadRequest,
        Subject::CloudSync => NatsRequestView::PrintNannyCloudSyncRequest,
        Subject::DeviceInfoLoad => NatsRequestView::DeviceInfoLoadRequest,
        Subject::SettingsFileLoad => NatsRequestView::SettingsFileLoadRequest,
        Subject::CameraSettingsLoad => NatsRequestView::CameraSettingsFileLoadRequest,
        _ => arbitrary(),
    }
}

/// The request that a document holds for a subject that carries a payload,
/// by the subject's schema.
pub open spec fn request_of(subject: Subject, doc: JsonDoc) -> Option<NatsRequestView> {
    match subject {
        Subject::CrashReportOsLogs => match crash_report_of(doc) {
            Some(request) => Some(NatsRequestView::CrashReportOsLogsRequest(request)),
            None => None,
        },
        Subject::CloudAuth => match cloud_auth_of(doc) {
            Some(request) => Some(NatsRequestView::PrintNannyCloudAuthRequest(request)),
            None => None,
        },
        Subject::SettingsFileApply => match apply_request_of(doc) {
            Some(request) => Some(NatsRequestView::SettingsFileApplyRequest(request)),
            None => None,
        },
        Subject::SettingsFileRevert => match revert_request_of(doc) {
            Some(request) => Some(NatsRequestView::SettingsFileRevertRequest(request)),
            None => None,
        },
        Subject::CameraSettingsApply => match video_stream_of(doc) {
            Some(request) => Some(NatsRequestView::CameraSettingsFileApplyRequest(request)),
            None => None,
        },
        Subject::DisableUnit => match unit_files_of(doc) {
            Some(request) => Some(NatsRequestView::SystemdManagerDisableUnitsRequest(request)),
            None => None,
        },
        Subject::EnableUnit => match unit_files_of(doc) {
            Some(request) => Some(NatsRequestView::SystemdManagerEnableUnitsRequest(request)),
            None => None,
        },
        Subject::GetUnit => match unit_name_of(doc) {
            Some(request) => Some(NatsRequestView::SystemdManagerGetUnitRequest(request)),
            None => None,
        },
        Subject::GetUnitFileState => match unit_name_of(doc) {
            Some(request) => Some(NatsRequestView::SystemdManagerGetUnitFileStateRequest(request)),
            None => None,
        },
        Subject::RestartUnit => match unit_name_of(doc) {
            Some(request) => Some(NatsRequestView::SystemdManagerRestartUnitRequest(request)),
            None => None,
        },
        Subject::StartUnit => match unit_name_of(doc) {
            Some(request) => Some(NatsRequestView::SystemdManagerStartUnitRequest(request)),
            None => None,
        },
        Subject::StopUnit => match unit_name_of(doc) {
            Some(request) => Some(NatsRequestView::SystemdManagerStopUnitRequest(request)),
            None => None,
        },
        _ => None,
    }
}

/// What a pattern and a payload decode to. A subject without payload is
/// decoded whatever the bytes hold.
pub open spec fn decoded(pattern: Seq<char>, payload: Seq<u8>) -> Result<
    NatsRequestView,
    DecodeError,
> {
    match Subject::spec_from_pattern(pattern) {
        None => Err(DecodeError::UnroutableSubject),
        Some(subject) => if !subject.spec_has_payload() {
            Ok(bare_request(subject))
        } else {
            match json_document(payload) {
                None => Err(DecodeError::PayloadDeserialization(PayloadFault::Syntax)),
                Some(doc) => match request_of(subject, doc) {
                    Some(request) => Ok(request),
                    None => Err(DecodeError::PayloadDeserialization(PayloadFault::Schema)),
                },
            }
        },
    }
}

impl NatsRequest {
    /// The subject under which the request arrives.
    pub fn subject(&self) -> (subject: Subject)
        ensures
            subject == self@.subject(),
    {
        match self {
            NatsRequest::CameraRecordingLoadRequest => Subject::CameraRecordingLoad,
            NatsRequest::CameraRecordingStartRequest => Subject::CameraRecordingStart,
            NatsRequest::CameraRecordingStopRequest => Subject::CameraRecordingStop,
            NatsRequest::CameraLoadRequest => Subject::CamerasLoad,
            NatsRequest::PrintNannyCloudSyncRequest => Subject::CloudSync,
            NatsRequest::CrashReportOsLogsRequest(_) => Subject::CrashReportOsLogs,
            NatsRequest::DeviceInfoLoadRequest => Subject::DeviceInfoLoad,
            NatsRequest::PrintNannyCloudAuthRequest(_) => Subject::CloudAuth,
            NatsRequest::SettingsFileLoadRequest => Subject::SettingsFileLoad,
            NatsRequest::SettingsFileApplyRequest(_) => Subject::SettingsFileApply,
            NatsRequest::SettingsFileRevertRequest(_) => Subject::SettingsFileRevert,
            NatsRequest::CameraSettingsFileApplyRequest(_) => Subject::CameraSettingsApply,
            NatsRequest::CameraSettingsFileLoadRequest => Subject::CameraSettingsLoad,
            NatsRequest::SystemdManagerDisableUnitsRequest(_) => Subject::DisableUnit,
            NatsRequest::SystemdManagerEnableUnitsRequest(_) => Subject::EnableUnit,
            NatsRequest::SystemdManagerGetUnitRequest(_) => Subject::GetUnit,
            NatsRequest::SystemdManagerGetUnitFileStateRequest(_) => Subject::GetUnitFileState,
            NatsRequest::SystemdManagerRestartUnitRequest(_) => Subject::RestartUnit,
            NatsRequest::SystemdManagerStartUnitRequest(_) => Subject::StartUnit,
            NatsRequest::SystemdManagerStopUnitRequest(_) => Subject::StopUnit,
        }
    }

    /// Turns a subject on the wire into its pattern, or a pattern into a
    /// subject: every occurrence of `pattern` in `subject` gives way to
    /// `replace`.
    pub fn replace_subject_pattern(subject: &str, pattern: &str, replace: &str) -> (r: String)
        ensures
            r@ == replaced(subject@, pattern@, replace@),
    {
        replace_text(subject, pattern, replace)
    }

    /// The request of a subject that carries no payload; `None` for a
    /// subject that carries one.
    pub fn without_payload(subject: Subject) -> (r: Option<NatsRequest>)
        ensures
            match r {
                Some(request) => !subject.spec_has_payload() && request@ == bare_request(subject)
                    && request@.subject() == subject,
                None => subject.spec_has_payload(),
            },
    {
        match subject {
            Subject::CameraRecordingLoad => Some(NatsRequest::CameraRecordingLoadRequest),
            Subject::CameraRecordingStart => Some(NatsRequest::CameraRecordingStartRequest),
            Subject::CameraRecordingStop => Some(NatsRequest::CameraRecordingStopRequest),
            Subject::CamerasLoad => Some(NatsRequest::CameraLoadRequest),
            Subject::CloudSync => Some(NatsRequest::PrintNannyCloudSyncRequest),
            Subject::DeviceInfoLoad => Some(NatsRequest::DeviceInfoLoadRequest),
            Subject::SettingsFileLoad => Some(NatsRequest::SettingsFileLoadRequest),
            Subject::CameraSettingsLoad => Some(NatsRequest::CameraSettingsFileLoadRequest),
            _ => None,
        }
    }

    /// Reads the request of `subject` from a document, by the subject's
    /// schema; `None` where the document does not fit it, and for a subject
    /// that carries no payload.
    pub fn from_json(subject: Subject, value: &JsonValue) -> (r: Option<NatsRequest>)
        ensures
            match r {
                Some(request) => request_of(subject, value@) == Some(request@)
                    && request@.subject() == subject,
                None => request_of(subject, value@) is None,
            },
    {
        match subject {
            Subject::CrashReportOsLogs => match crash_report_from_json(value) {
                Some(request) => Some(NatsRequest::CrashReportOsLogsRequest(request)),
                None => None,
            },
            Subject::CloudAuth => match cloud_auth_from_json(value) {
                Some(request) => Some(NatsRequest::PrintNannyCloudAuthRequest(request)),
                None => None,
            },
            Subject::SettingsFileApply => match apply_request_from_json(value) {
                Some(request) => Some(NatsRequest::SettingsFileApplyRequest(request)),
                None => None,
            },
            Subject::SettingsFileRevert => match revert_request_from_json(value) {
                Some(request) => Some(NatsRequest::SettingsFileRevertRequest(request)),
                None => None,
            },
            Subject::CameraSettingsApply => match video_stream_from_json(value) {
                Some(request) => Some(NatsRequest::CameraSettingsFileApplyRequest(request)),
                None => None,
            },
            Subject::DisableUnit => match unit_files_from_json(value) {
                Some(request) => Some(NatsRequest::SystemdManagerDisableUnitsRequest(request)),
                None => None,
            },
            Subject::EnableUnit => match unit_files_from_json(value) {
                Some(request) => Some(NatsRequest::SystemdManagerEnableUnitsRequest(request)),
                None => None,
            },
            Subject::GetUnit => match unit_name_from_json(value) {
                Some(unit_name) => Some(NatsRequest::SystemdManagerGetUnitRequest(SystemdManagerGetUnitRequest { unit_name })),
                None => None,
            },
            Subject::GetUnitFileState => match unit_name_from_json(value) {
                Some(unit_name) => Some(NatsRequest::SystemdManagerGetUnitFileStateRequest(SystemdManagerGetUnitRequest { unit_name })),
                None => None,
            },
            Subject::RestartUnit => match unit_name_from_json(value) {
                Some(unit_name) => Some(NatsRequest::SystemdManagerRestartUnitRequest(SystemdManagerRestartUnitRequest { unit_name })),
                None => None,
            },
            Subject::StartUnit => match unit_name_from_json(value) {
                Some(unit_name) => Some(NatsRequest::SystemdManagerStartUnitRequest(SystemdManagerStartUnitRequest { unit_name })),
                None => None,
            },
            Subject::StopUnit => match unit_name_from_json(value) {
                Some(unit_name) => Some(NatsRequest::SystemdManagerStopUnitRequest(SystemdManagerStopUnitRequest { unit_name })),
                None => None,
            },
            _ => None,
        }
    }

    /// Decodes a request. A pattern outside the closed set is refused as
    /// unroutable, whatever the payload; a payload that is no JSON document,
    /// or not of the subject's schema, is refused as such.
    pub fn deserialize_payload(subject_pattern: &str, payload: &[u8]) -> (r: Result<
        NatsRequest,
        DecodeError,
    >)
        ensures
            match r {
                Ok(request) => decoded(subject_pattern@, payload@) == Ok::<
                    NatsRequestView,
                    DecodeError,
                >(request@),
                Err(error) => decoded(subject_pattern@, payload@) == Err::<
                    NatsRequestView,
                    DecodeError,
                >(error),
            },
            Subject::spec_from_pattern(subject_pattern@) is None ==> r == Err::<
                NatsRequest,
                DecodeError,
            >(DecodeError::UnroutableSubject),
            r matches Ok(request) ==> Subject::spec_from_pattern(subject_pattern@) == Some(
                request@.subject(),
            ),
    {
        match Subject::from_pattern(subject_pattern) {
            None => Err(DecodeError::UnroutableSubject),
            Some(subject) => {
                match Self::without_payload(subject) {
                    Some(request) => Ok(request),
                    None => match parse(payload) {
                        None => Err(DecodeError::PayloadDeserialization(PayloadFault::Syntax)),
                        Some(value) => match Self::from_json(subject, &value) {
                            Some(request) => Ok(request),
                            None => Err(
                                DecodeError::PayloadDeserialization(PayloadFault::Schema),
                            ),
                        },
                    },
                }
            },
        }
    }
}

/// A pattern is refused as unroutable exactly when it is the pattern of no
/// subject, whatever the payload; every other pattern gets a request or
/// the error of its payload.
pub proof fn unroutable_is_unknown(pattern: Seq<char>, payload: Seq<u8>)
    ensures
        decoded(pattern, payload) == Err::<NatsRequestView, DecodeError>(
            DecodeError::UnroutableSubject,
        ) <==> forall|subject: Subject| subject.spec_pattern() != pattern,
        decoded(pattern, payload) matches Ok(request) ==> request.subject().spec_pattern()
            == pattern,
{
    if Subject::spec_from_pattern(pattern) is None {
        assert forall|subject: Subject| subject.spec_pattern() != pattern by {
            crate::subject::patterns_are_distinct(subject);
        }
    } else {
        let subject = Subject::spec_from_pattern(pattern)->0;
        crate::subject::routed_pattern_is_own(pattern);
        assert(subject.spec_pattern() == pattern);
    }
}

/// What requests share, so that two of them must not be in flight at once:
/// the file of one settings domain, or the recording session.
#[derive(Clone, Copy, PartialEq, Eq, Structural, Debug, Hash)]
pub enum Resource {
    Settings(crate::vcs::SettingsApp),
    Recording,
}

impl NatsRequestView {
    /// The resource that the request changes, if it changes one.
    pub open spec fn resource(self) -> Option<Resource> {
        match self {
            NatsRequestView::SettingsFileApplyRequest(request) => Some(
                Resource::Settings(request.file.app),
            ),
            NatsRequestView::SettingsFileRevertRequest(request) => Some(
                Resource::Settings(request.app),
            ),
            NatsRequestView::CameraSettingsFileApplyRequest(_) => Some(
                Resource::Settings(crate::vcs::SettingsApp::Printnanny),
            ),
            NatsRequestView::CameraRecordingStartRequest => Some(Resource::Recording),
            NatsRequestView::CameraRecordingStopRequest => Some(Resource::Recording),
            _ => None,
        }
    }
}

impl NatsRequest {
    /// The resource that the request changes. The caller lets at most one
    /// request be in flight for each resource: this library takes no lock
    /// of its own.
    pub fn resource(&self) -> (r: Option<Resource>)
        ensures
            r == self@.resource(),
    {
        match self {
            NatsRequest::SettingsFileApplyRequest(request) => Some(
                Resource::Settings(request.file.app),
            ),
            NatsRequest::SettingsFileRevertRequest(request) => Some(
                Resource::Settings(request.app),
            ),
            NatsRequest::CameraSettingsFileApplyRequest(_) => Some(
                Resource::Settings(crate::vcs::SettingsApp::Printnanny),
            ),
            NatsRequest::CameraRecordingStartRequest => Some(Resource::Recording),
            NatsRequest::CameraRecordingStopRequest => Some(Resource::Recording),
            _ => None,
        }
    }
}

} // verus!
