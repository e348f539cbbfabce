//! Replies: one variant for each subject.
use crate::payload::{SystemdManagerGetUnitRequest, SystemdManagerUnitFilesRequest};
use crate::recording::VideoRecording;
use crate::subject::Subject;
use crate::systemd::{SystemdUnit, SystemdUnitChange, SystemdUnitFileState};
use crate::vcs::{GitCommit, SettingsApp, SettingsFile};
use crate::video::VideoStreamSettings;
use vstd::prelude::*;

verus! {

/// All recordings, and the one that is open, if any.
#[derive(Debug, PartialEq, Eq)]
pub struct CameraRecordingLoadReply {
    pub recordings: Vec<VideoRecording>,
    pub current: Option<VideoRecording>,
}

/// The recording that was started.
#[derive(Debug, PartialEq, Eq)]
pub struct CameraRecordingStarted {
    pub recording: VideoRecording,
}

/// The recording that was stopped; none where none was open.
#[derive(Debug, PartialEq, Eq)]
pub struct CameraRecordingStopped {
    pub recording: Option<VideoRecording>,
}

/// How a camera is attached.
#[derive(Clone, Copy, PartialEq, Eq, Structural, Debug)]
pub enum CameraSourceType {
    Csi,
    Usb,
}

/// One way in which a camera delivers video.
#[derive(Debug, PartialEq, Eq)]
pub struct GstreamerCaps {
    pub media_type: String,
    pub format: String,
    pub width: i32,
    pub height: i32,
}

/// A camera of the device.
#[derive(Debug, PartialEq, Eq)]
pub struct Camera {
    pub index: i32,
    pub device_name: String,
    pub label: String,
    pub src_type: CameraSourceType,
    pub selected_caps: GstreamerCaps,
    pub available_caps: Vec<GstreamerCaps>,
}

/// The cameras of the device.
#[derive(Debug, PartialEq, Eq)]
pub struct CamerasLoadReply {
    pub cameras: Vec<Camera>,
}

/// When a sync with the cloud began and ended.
#[derive(Debug, PartialEq, Eq)]
pub struct PrintNannyCloudSyncReply {
    pub start: String,
    pub end: String,
}

/// The crash report that was updated, and when.
#[derive(Debug, PartialEq, Eq)]
pub struct CrashReportOsLogsReply {
    pub id: String,
    pub updated_dt: String,
}

/// One address of one network interface.
#[derive(Debug, PartialEq, Eq)]
pub struct NetworkInterfaceAddress {
    pub interface_name: String,
    pub flags: i32,
    pub address: Option<String>,
    pub netmask: Option<String>,
    pub destination: Option<String>,
    pub broadcast: Option<String>,
}

/// What the device tells of itself.
#[derive(Debug, PartialEq, Eq)]
pub struct DeviceInfoLoadReply {
    pub issue: String,
    pub os_release: String,
    pub printnanny_cli_version: String,
    pub ifaddrs: Vec<NetworkInterfaceAddress>,
}

/// How connecting to a cloud account ended, as an HTTP status and a
/// sentence.
#[derive(Debug, PartialEq, Eq)]
pub struct PrintNannyCloudAuthReply {
    pub status_code: i32,
    pub msg: String,
}

/// The files of all domains, the head commit and the log.
#[derive(Debug, PartialEq, Eq)]
pub struct SettingsFileLoadReply {
    pub files: Vec<SettingsFile>,
    pub git_head_commit: String,
    pub git_history: Vec<GitCommit>,
}

/// The file as it stands after the change, the head commit and the
/// domain's history.
#[derive(Debug, PartialEq, Eq)]
pub struct SettingsFileApplyReply {
    pub file: SettingsFile,
    pub git_head_commit: String,
    pub git_history: Vec<GitCommit>,
}

/// The domain's file as it stands after the revert, the head commit and
/// the domain's history.
#[derive(Debug, PartialEq, Eq)]
pub struct SettingsFileRevertReply {
    pub app: SettingsApp,
    pub files: Vec<SettingsFile>,
    pub git_head_commit: String,
    pub git_history: Vec<GitCommit>,
}

/// What disabling changed, and for which request.
#[derive(Debug, PartialEq, Eq)]
pub struct SystemdManagerDisableUnitsReply {
    pub changes: Vec<SystemdUnitChange>,
    pub request: SystemdManagerUnitFilesRequest,
}

/// What enabling changed, and for which request.
#[derive(Debug, PartialEq, Eq)]
pub struct SystemdManagerEnableUnitsReply {
    pub changes: Vec<SystemdUnitChange>,
    pub request: SystemdManagerUnitFilesRequest,
}

/// The unit that was looked up.
#[derive(Debug, PartialEq, Eq)]
pub struct SystemdManagerGetUnitReply {
    pub unit: SystemdUnit,
}

/// The state of a unit's file, and for which request.
#[derive(Debug, PartialEq, Eq)]
pub struct SystemdManagerGetUnitFileStateReply {
    pub unit_file_state: SystemdUnitFileState,
    pub request: SystemdManagerGetUnitRequest,
}

/// The job that was queued and the unit it acts on.
#[derive(Debug, PartialEq, Eq)]
pub struct SystemdManagerRestartUnitReply {
    pub job: String,
    pub unit: SystemdUnit,
}

/// The job that was queued and the unit it acts on.
#[derive(Debug, PartialEq, Eq)]
pub struct SystemdManagerStartUnitReply {
    pub job: String,
    pub unit: SystemdUnit,
}

/// The job that was queued and the unit it acts on.
#[derive(Debug, PartialEq, Eq)]
pub struct SystemdManagerStopUnitReply {
    pub job: String,
    pub unit: SystemdUnit,
}

/// A reply, typed by its subject.
#[derive(Debug, PartialEq, Eq)]
pub enum NatsReply {
    CameraRecordingLoadReply(CameraRecordingLoadReply),
    CameraRecordingStartReply(CameraRecordingStarted),
    CameraRecordingStopReply(CameraRecordingStopped),
    CameraLoadReply(CamerasLoadReply),
    PrintNannyCloudSyncReply(PrintNannyCloudSyncReply),
    CrashReportOsLogsReply(CrashReportOsLogsReply),
    DeviceInfoLoadReply(DeviceInfoLoadReply),
    PrintNannyCloudAuthReply(PrintNannyCloudAuthReply),
    SettingsFileLoadReply(SettingsFileLoadReply),
    SettingsFileApplyReply(SettingsFileApplyReply),
    SettingsFileRevertReply(SettingsFileRevertReply),
    CameraSettingsFileApplyReply(VideoStreamSettings),
    CameraSettingsFileLoadReply(VideoStreamSettings),
    SystemdManagerDisableUnitsReply(SystemdManagerDisableUnitsReply),
    SystemdManagerEnableUnitsReply(SystemdManagerEnableUnitsReply),
    SystemdManagerGetUnitReply(SystemdManagerGetUnitReply),
    SystemdManagerGetUnitFileStateReply(SystemdManagerGetUnitFileStateReply),
    SystemdManagerRestartUnitReply(SystemdManagerRestartUnitReply),
    SystemdManagerStartUnitReply(SystemdManagerStartUnitReply),
    SystemdManagerStopUnitReply(SystemdManagerStopUnitReply),
}

impl NatsReply {
    /// The subject that the reply answers.
    pub open spec fn spec_subject(&self) -> Subject {
        match self {
            NatsReply::CameraRecordingLoadReply(_) => Subject::CameraRecordingLoad,
            NatsReply::CameraRecordingStartReply(_) => Subject::CameraRecordingStart,
            NatsReply::CameraRecordingStopReply(_) => Subject::CameraRecordingStop,
            NatsReply::CameraLoadReply(_) => Subject::CamerasLoad,
            NatsReply::PrintNannyCloudSyncReply(_) => Subject::CloudSync,
            NatsReply::CrashReportOsLogsReply(_) => Subject::CrashReportOsLogs,
            NatsReply::DeviceInfoLoadReply(_) => Subject::DeviceInfoLoad,
            NatsReply::PrintNannyCloudAuthReply(_) => Subject::CloudAuth,
            NatsReply::SettingsFileLoadReply(_) => Subject::SettingsFileLoad,
            NatsReply::SettingsFileApplyReply(_) => Subject::SettingsFileApply,
            NatsReply::SettingsFileRevertReply(_) => Subject::SettingsFileRevert,
            NatsReply::CameraSettingsFileApplyReply(_) => Subject::CameraSettingsApply,
            NatsReply::CameraSettingsFileLoadReply(_) => Subject::CameraSettingsLoad,
            NatsReply::SystemdManagerDisableUnitsReply(_) => Subject::DisableUnit,
            NatsReply::SystemdManagerEnableUnitsReply(_) => Subject::EnableUnit,
            NatsReply::SystemdManagerGetUnitReply(_) => Subject::GetUnit,
            NatsReply::SystemdManagerGetUnitFileStateReply(_) => Subject::GetUnitFileState,
            NatsReply::SystemdManagerRestartUnitReply(_) => Subject::RestartUnit,
            NatsReply::SystemdManagerStartUnitReply(_) => Subject::StartUnit,
            NatsReply::SystemdManagerStopUnitReply(_) => Subject::StopUnit,
        }
    }

    /// The subject that the reply answers.
    pub fn subject(&self) -> (subject: Subject)
        ensures
            subject == self.spec_subject(),
    {
        match self {
            NatsReply::CameraRecordingLoadReply(_) => Subject::CameraRecordingLoad,
            NatsReply::CameraRecordingStartReply(_) => Subject::CameraRecordingStart,
            NatsReply::CameraRecordingStopReply(_) => Subject::CameraRecordingStop,
            NatsReply::CameraLoadReply(_) => Subject::CamerasLoad,
            NatsReply::PrintNannyCloudSyncReply(_) => Subject::CloudSync,
            NatsReply::CrashReportOsLogsReply(_) => Subject::CrashReportOsLogs,
            NatsReply::DeviceInfoLoadReply(_) => Subject::DeviceInfoLoad,
            NatsReply::PrintNannyCloudAuthReply(_) => Subject::CloudAuth,
            NatsReply::SettingsFileLoadReply(_) => Subject::SettingsFileLoad,
            NatsReply::SettingsFileApplyReply(_) => Subject::SettingsFileApply,
            NatsReply::SettingsFileRevertReply(_) => Subject::SettingsFileRevert,
            NatsReply::CameraSettingsFileApplyReply(_) => Subject::CameraSettingsApply,
            NatsReply::CameraSettingsFileLoadReply(_) => Subject::CameraSettingsLoad,
            NatsReply::SystemdManagerDisableUnitsReply(_) => Subject::DisableUnit,
            NatsReply::SystemdManagerEnableUnitsReply(_) => Subject::EnableUnit,
            NatsReply::SystemdManagerGetUnitReply(_) => Subject::GetUnit,
            NatsReply::SystemdManagerGetUnitFileStateReply(_) => Subject::GetUnitFileState,
            NatsReply::SystemdManagerRestartUnitReply(_) => Subject::RestartUnit,
            NatsReply::SystemdManagerStartUnitReply(_) => Subject::StartUnit,
            NatsReply::SystemdManagerStopUnitReply(_) => Subject::StopUnit,
        }
    }

    /// The pattern under which the reply leaves.
    pub fn subject_pattern(&self) -> (pattern: &'static str)
        ensures
            pattern@ == self.spec_subject().spec_reply_pattern(),
    {
        self.subject().reply_pattern()
    }
}

} // verus!
