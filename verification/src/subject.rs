//! Subjects: the closed set of names under which requests arrive and
//! replies leave. A subject pattern holds the placeholder `{pi_id}` where a
//! subject on the wire holds the device's id.
use crate::text::same_text;
use vstd::prelude::*;

verus! {

/// One request and its reply.
#[derive(Clone, Copy, PartialEq, Eq, Structural, Debug)]
pub enum Subject {
    /// Lists the recordings and names the current one.
    CameraRecordingLoad,
    /// Starts a recording.
    CameraRecordingStart,
    /// Ends the current recording.
    CameraRecordingStop,
    /// Lists the cameras.
    CamerasLoad,
    /// Syncs the device with the cloud.
    CloudSync,
    /// Attaches the system's logs to a crash report.
    CrashReportOsLogs,
    /// Describes the device.
    DeviceInfoLoad,
    /// Connects the device to a cloud account.
    CloudAuth,
    /// Loads the files of all domains.
    SettingsFileLoad,
    /// Writes and commits one domain's file.
    SettingsFileApply,
    /// Undoes one commit of a domain.
    SettingsFileRevert,
    /// Replaces the settings of the video stream.
    CameraSettingsApply,
    /// Loads the settings of the video stream.
    CameraSettingsLoad,
    /// Disables unit files.
    DisableUnit,
    /// Enables unit files.
    EnableUnit,
    /// Looks a unit up.
    GetUnit,
    /// Asks for the state of a unit's file.
    GetUnitFileState,
    /// Restarts a unit.
    RestartUnit,
    /// Starts a unit.
    StartUnit,
    /// Stops a unit.
    StopUnit,
}

impl Subject {
    /// The pattern under which the request arrives.
    pub open spec fn spec_pattern(self) -> Seq<char> {
        match self {
            Subject::CameraRecordingLoad => "pi.{pi_id}.command.camera.recording.load"@,
            Subject::CameraRecordingStart => "pi.{pi_id}.command.camera.recording.start"@,
            Subject::CameraRecordingStop => "pi.{pi_id}.command.camera.recording.stop"@,
            Subject::CamerasLoad => "pi.{pi_id}.cameras.load"@,
            Subject::CloudSync => "pi.{pi_id}.command.cloud.sync"@,
            Subject::CrashReportOsLogs => "pi.{pi_id}.crash_reports.os"@,
            Subject::DeviceInfoLoad => "pi.{pi_id}.device_info.load"@,
            Subject::CloudAuth => "pi.{pi_id}.settings.printnanny.cloud.auth"@,
            Subject::SettingsFileLoad => "pi.{pi_id}.settings.file.load"@,
            Subject::SettingsFileApply => "pi.{pi_id}.settings.file.apply"@,
            Subject::SettingsFileRevert => "pi.{pi_id}.settings.file.revert"@,
            Subject::CameraSettingsApply => "pi.{pi_id}.settings.camera.apply"@,
            Subject::CameraSettingsLoad => "pi.{pi_id}.settings.camera.load"@,
            Subject::DisableUnit => "pi.{pi_id}.dbus.org.freedesktop.systemd1.Manager.DisableUnit"@,
            Subject::EnableUnit => "pi.{pi_id}.dbus.org.freedesktop.systemd1.Manager.EnableUnit"@,
            Subject::GetUnit => "pi.{pi_id}.dbus.org.freedesktop.systemd1.Manager.GetUnit"@,
            Subject::GetUnitFileState => "pi.{pi_id}.dbus.org.freedesktop.systemd1.Manager.GetUnitFileState"@,
            Subject::RestartUnit => "pi.{pi_id}.dbus.org.freedesktop.systemd1.Manager.RestartUnit"@,
            Subject::StartUnit => "pi.{pi_id}.dbus.org.freedesktop.systemd1.Manager.StartUnit"@,
            Subject::StopUnit => "pi.{pi_id}.dbus.org.freedesktop.systemd1.Manager.StopUnit"@,
        }
    }

    /// The pattern under which the reply leaves: the request's, but for the
    /// three subjects on settings files.
    pub open spec fn spec_reply_pattern(self) -> Seq<char> {
        match self {
            Subject::SettingsFileLoad => "pi.{pi_id}.settings.printnanny.load"@,
            Subject::SettingsFileApply => "pi.{pi_id}.settings.printnanny.apply"@,
            Subject::SettingsFileRevert => "pi.{pi_id}.settings.printnanny.revert"@,
            _ => self.spec_pattern(),
        }
    }

    /// The subject that a pattern names, if it names one.
    pub open spec fn spec_from_pattern(pattern: Seq<char>) -> Option<Subject> {
        if pattern == "pi.{pi_id}.command.camera.recording.load"@ {
            Some(Subject::CameraRecordingLoad)
        } else if pattern == "pi.{pi_id}.command.camera.recording.start"@ {
            Some(Subject::CameraRecordingStart)
        } else if pattern == "pi.{pi_id}.command.camera.recording.stop"@ {
            Some(Subject::CameraRecordingStop)
        } else if pattern == "pi.{pi_id}.cameras.load"@ {
            Some(Subject::CamerasLoad)
        } else if pattern == "pi.{pi_id}.command.cloud.sync"@ {
            Some(Subject::CloudSync)
        } else if pattern == "pi.{pi_id}.crash_reports.os"@ {
            Some(Subject::CrashReportOsLogs)
        } else if pattern == "pi.{pi_id}.device_info.load"@ {
            Some(Subject::DeviceInfoLoad)
        } else if pattern == "pi.{pi_id}.settings.printnanny.cloud.auth"@ {
            Some(Subject::CloudAuth)
        } else if pattern == "pi.{pi_id}.settings.file.load"@ {
            Some(Subject::SettingsFileLoad)
        } else if pattern == "pi.{pi_id}.settings.file.apply"@ {
            Some(Subject::SettingsFileApply)
        } else if pattern == "pi.{pi_id}.settings.file.revert"@ {
            Some(Subject::SettingsFileRevert)
        } else if pattern == "pi.{pi_id}.settings.camera.apply"@ {
            Some(Subject::CameraSettingsApply)
        } else if pattern == "pi.{pi_id}.settings.camera.load"@ {
            Some(Subject::CameraSettingsLoad)
        } else if pattern == "pi.{pi_id}.dbus.org.freedesktop.systemd1.Manager.DisableUnit"@ {
            Some(Subject::DisableUnit)
        } else if pattern == "pi.{pi_id}.dbus.org.freedesktop.systemd1.Manager.EnableUnit"@ {
            Some(Subject::EnableUnit)
        } else if pattern == "pi.{pi_id}.dbus.org.freedesktop.systemd1.Manager.GetUnit"@ {
            Some(Subject::GetUnit)
        } else if pattern == "pi.{pi_id}.dbus.org.freedesktop.systemd1.Manager.GetUnitFileState"@ {
            Some(Subject::GetUnitFileState)
        } else if pattern == "pi.{pi_id}.dbus.org.freedesktop.systemd1.Manager.RestartUnit"@ {
            Some(Subject::RestartUnit)
        } else if pattern == "pi.{pi_id}.dbus.org.freedesktop.systemd1.Manager.StartUnit"@ {
            Some(Subject::StartUnit)
        } else if pattern == "pi.{pi_id}.dbus.org.freedesktop.systemd1.Manager.StopUnit"@ {
            Some(Subject::StopUnit)
        } else {
            None
        }
    }

    /// Whether the request carries a payload.
    pub open spec fn spec_has_payload(self) -> bool {
        match self {
            Subject::CrashReportOsLogs => true,
            Subject::CloudAuth => true,
            Subject::SettingsFileApply => true,
            Subject::SettingsFileRevert => true,
            Subject::CameraSettingsApply => true,
            Subject::DisableUnit => true,
            Subject::EnableUnit => true,
            Subject::GetUnit => true,
            Subject::GetUnitFileState => true,
            Subject::RestartUnit => true,
            Subject::StartUnit => true,
            Subject::StopUnit => true,
            _ => false,
        }
    }

    /// The pattern under which the request arrives.
    pub fn pattern(self) -> (pattern: &'static str)
        ensures
            pattern@ == self.spec_pattern(),
    {
        match self {
            Subject::CameraRecordingLoad => "pi.{pi_id}.command.camera.recording.load",
            Subject::CameraRecordingStart => "pi.{pi_id}.command.camera.recording.start",
            Subject::CameraRecordingStop => "pi.{pi_id}.command.camera.recording.stop",
            Subject::CamerasLoad => "pi.{pi_id}.cameras.load",
            Subject::CloudSync => "pi.{pi_id}.command.cloud.sync",
            Subject::CrashReportOsLogs => "pi.{pi_id}.crash_reports.os",
            Subject::DeviceInfoLoad => "pi.{pi_id}.device_info.load",
            Subject::CloudAuth => "pi.{pi_id}.settings.printnanny.cloud.auth",
            Subject::SettingsFileLoad => "pi.{pi_id}.settings.file.load",
            Subject::SettingsFileApply => "pi.{pi_id}.settings.file.apply",
            Subject::SettingsFileRevert => "pi.{pi_id}.settings.file.revert",
            Subject::CameraSettingsApply => "pi.{pi_id}.settings.camera.apply",
            Subject::CameraSettingsLoad => "pi.{pi_id}.settings.camera.load",
            Subject::DisableUnit => "pi.{pi_id}.dbus.org.freedesktop.systemd1.Manager.DisableUnit",
            Subject::EnableUnit => "pi.{pi_id}.dbus.org.freedesktop.systemd1.Manager.EnableUnit",
            Subject::GetUnit => "pi.{pi_id}.dbus.org.freedesktop.systemd1.Manager.GetUnit",
            Subject::GetUnitFileState => "pi.{pi_id}.dbus.org.freedesktop.systemd1.Manager.GetUnitFileState",
            Subject::RestartUnit => "pi.{pi_id}.dbus.org.freedesktop.systemd1.Manager.RestartUnit",
            Subject::StartUnit => "pi.{pi_id}.dbus.org.freedesktop.systemd1.Manager.StartUnit",
            Subject::StopUnit => "pi.{pi_id}.dbus.org.freedesktop.systemd1.Manager.StopUnit",
        }
    }

    /// The pattern under which the reply leaves.
    pub fn reply_pattern(self) -> (pattern: &'static str)
        ensures
            pattern@ == self.spec_reply_pattern(),
    {
        match self {
            Subject::SettingsFileLoad => "pi.{pi_id}.settings.printnanny.load",
            Subject::SettingsFileApply => "pi.{pi_id}.settings.printnanny.apply",
            Subject::SettingsFileRevert => "pi.{pi_id}.settings.printnanny.revert",
            _ => self.pattern(),
        }
    }

    /// Routes a pattern: `None` for every text outside the closed set.
    pub fn from_pattern(pattern: &str) -> (subject: Option<Subject>)
        ensures
            subject == Self::spec_from_pattern(pattern@),
    {
        if same_text(pattern, "pi.{pi_id}.command.camera.recording.load") {
            Some(Subject::CameraRecordingLoad)
        } else if same_text(pattern, "pi.{pi_id}.command.camera.recording.start") {
            Some(Subject::CameraRecordingStart)
        } else if same_text(pattern, "pi.{pi_id}.command.camera.recording.stop") {
            Some(Subject::CameraRecordingStop)
        } else if same_text(pattern, "pi.{pi_id}.cameras.load") {
            Some(Subject::CamerasLoad)
        } else if same_text(pattern, "pi.{pi_id}.command.cloud.sync") {
            Some(Subject::CloudSync)
        } else if same_text(pattern, "pi.{pi_id}.crash_reports.os") {
            Some(Subject::CrashReportOsLogs)
        } else if same_text(pattern, "pi.{pi_id}.device_info.load") {
            Some(Subject::DeviceInfoLoad)
        } else if same_text(pattern, "pi.{pi_id}.settings.printnanny.cloud.auth") {
            Some(Subject::CloudAuth)
        } else if same_text(pattern, "pi.{pi_id}.settings.file.load") {
            Some(Subject::SettingsFileLoad)
        } else if same_text(pattern, "pi.{pi_id}.settings.file.apply") {
            Some(Subject::SettingsFileApply)
        } else if same_text(pattern, "pi.{pi_id}.settings.file.revert") {
            Some(Subject::SettingsFileRevert)
        } else if same_text(pattern, "pi.{pi_id}.settings.camera.apply") {
            Some(Subject::CameraSettingsApply)
        } else if same_text(pattern, "pi.{pi_id}.settings.camera.load") {
            Some(Subject::CameraSettingsLoad)
        } else if same_text(pattern, "pi.{pi_id}.dbus.org.freedesktop.systemd1.Manager.DisableUnit") {
            Some(Subject::DisableUnit)
        } else if same_text(pattern, "pi.{pi_id}.dbus.org.freedesktop.systemd1.Manager.EnableUnit") {
            Some(Subject::EnableUnit)
        } else if same_text(pattern, "pi.{pi_id}.dbus.org.freedesktop.systemd1.Manager.GetUnit") {
            Some(Subject::GetUnit)
        } else if same_text(pattern, "pi.{pi_id}.dbus.org.freedesktop.systemd1.Manager.GetUnitFileState") {
            Some(Subject::GetUnitFileState)
        } else if same_text(pattern, "pi.{pi_id}.dbus.org.freedesktop.systemd1.Manager.RestartUnit") {
            Some(Subject::RestartUnit)
        } else if same_text(pattern, "pi.{pi_id}.dbus.org.freedesktop.systemd1.Manager.StartUnit") {
            Some(Subject::StartUnit)
        } else if same_text(pattern, "pi.{pi_id}.dbus.org.freedesktop.systemd1.Manager.StopUnit") {
            Some(Subject::StopUnit)
        } else {
            None
        }
    }

    /// Whether the request carries a payload.
    pub fn has_payload(self) -> (r: bool)
        ensures
            r == self.spec_has_payload(),
    {
        match self {
            Subject::CrashReportOsLogs => true,
            Subject::CloudAuth => true,
            Subject::SettingsFileApply => true,
            Subject::SettingsFileRevert => true,
            Subject::CameraSettingsApply => true,
            Subject::DisableUnit => true,
            Subject::EnableUnit => true,
            Subject::GetUnit => true,
            Subject::GetUnitFileState => true,
            Subject::RestartUnit => true,
            Subject::StartUnit => true,
            Subject::StopUnit => true,
            _ => false,
        }
    }
}

/// No two subjects share a pattern: every subject is found again from its
/// own pattern, and a pattern that names a subject is that subject's.
pub proof fn patterns_are_distinct(subject: Subject)
    ensures
        Subject::spec_from_pattern(subject.spec_pattern()) == Some(subject),
{
    reveal_strlit("pi.{pi_id}.command.camera.recording.load");
    reveal_strlit("pi.{pi_id}.command.camera.recording.start");
    reveal_strlit("pi.{pi_id}.command.camera.recording.stop");
    reveal_strlit("pi.{pi_id}.cameras.load");
    reveal_strlit("pi.{pi_id}.command.cloud.sync");
    reveal_strlit("pi.{pi_id}.crash_reports.os");
    reveal_strlit("pi.{pi_id}.device_info.load");
    reveal_strlit("pi.{pi_id}.settings.printnanny.cloud.auth");
    reveal_strlit("pi.{pi_id}.settings.file.load");
    reveal_strlit("pi.{pi_id}.settings.file.apply");
    reveal_strlit("pi.{pi_id}.settings.file.revert");
    reveal_strlit("pi.{pi_id}.settings.camera.apply");
    reveal_strlit("pi.{pi_id}.settings.camera.load");
    reveal_strlit("pi.{pi_id}.dbus.org.freedesktop.systemd1.Manager.DisableUnit");
    reveal_strlit("pi.{pi_id}.dbus.org.freedesktop.systemd1.Manager.EnableUnit");
    reveal_strlit("pi.{pi_id}.dbus.org.freedesktop.systemd1.Manager.GetUnit");
    reveal_strlit("pi.{pi_id}.dbus.org.freedesktop.systemd1.Manager.GetUnitFileState");
    reveal_strlit("pi.{pi_id}.dbus.org.freedesktop.systemd1.Manager.RestartUnit");
    reveal_strlit("pi.{pi_id}.dbus.org.freedesktop.systemd1.Manager.StartUnit");
    reveal_strlit("pi.{pi_id}.dbus.org.freedesktop.systemd1.Manager.StopUnit");
    assert("pi.{pi_id}.command.camera.recording.load"@.len() == 40);
    assert("pi.{pi_id}.command.camera.recording.start"@.len() == 41);
    assert("pi.{pi_id}.command.camera.recording.stop"@.len() == 40);
    assert("pi.{pi_id}.cameras.load"@.len() == 23);
    assert("pi.{pi_id}.command.cloud.sync"@.len() == 29);
    assert("pi.{pi_id}.crash_reports.os"@.len() == 27);
    assert("pi.{pi_id}.device_info.load"@.len() == 27);
    assert("pi.{pi_id}.settings.printnanny.cloud.auth"@.len() == 41);
    assert("pi.{pi_id}.settings.file.load"@.len() == 29);
    assert("pi.{pi_id}.settings.file.apply"@.len() == 30);
    assert("pi.{pi_id}.settings.file.revert"@.len() == 31);
    assert("pi.{pi_id}.settings.camera.apply"@.len() == 32);
    assert("pi.{pi_id}.settings.camera.load"@.len() == 31);
    assert("pi.{pi_id}.dbus.org.freedesktop.systemd1.Manager.DisableUnit"@.len() == 60);
    assert("pi.{pi_id}.dbus.org.freedesktop.systemd1.Manager.EnableUnit"@.len() == 59);
    assert("pi.{pi_id}.dbus.org.freedesktop.systemd1.Manager.GetUnit"@.len() == 56);
    assert("pi.{pi_id}.dbus.org.freedesktop.systemd1.Manager.GetUnitFileState"@.len() == 65);
    assert("pi.{pi_id}.dbus.org.freedesktop.systemd1.Manager.RestartUnit"@.len() == 60);
    assert("pi.{pi_id}.dbus.org.freedesktop.systemd1.Manager.StartUnit"@.len() == 58);
    assert("pi.{pi_id}.dbus.org.freedesktop.systemd1.Manager.StopUnit"@.len() == 57);
    assert("pi.{pi_id}.command.camera.recording.load"@[36] != "pi.{pi_id}.command.camera.recording.stop"@[36]);
    assert("pi.{pi_id}.crash_reports.os"@[11] != "pi.{pi_id}.device_info.load"@[11]);
    assert("pi.{pi_id}.command.camera.recording.start"@[11] != "pi.{pi_id}.settings.printnanny.cloud.auth"@[11]);
    assert("pi.{pi_id}.command.cloud.sync"@[11] != "pi.{pi_id}.settings.file.load"@[11]);
    assert("pi.{pi_id}.settings.file.revert"@[20] != "pi.{pi_id}.settings.camera.load"@[20]);
    assert("pi.{pi_id}.dbus.org.freedesktop.systemd1.Manager.DisableUnit"@[49] != "pi.{pi_id}.dbus.org.freedesktop.systemd1.Manager.RestartUnit"@[49]);
}

/// A pattern that is routed is the pattern of the subject it is routed to.
pub proof fn routed_pattern_is_own(pattern: Seq<char>)
    ensures
        Subject::spec_from_pattern(pattern) matches Some(subject) ==> subject.spec_pattern()
            == pattern,
{
}

} // verus!
