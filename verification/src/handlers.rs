//! What each request comes to: which engine owns it, and the reply that
//! the engine's answer gives. The handlers decide; reaching the bus, the
//! pipeline server, the cloud or the disk is the caller's part.
use crate::message::{NatsRequest, NatsRequestView};
use crate::payload::{
    PrintNannyCloudAuthRequest, SettingsFileApplyRequest, SettingsFileRevertRequest,
    SystemdManagerGetUnitRequest, SystemdManagerUnitFilesRequest,
};
use crate::recording::{
    closing_update, current_of, holds_id, new_row, recording, rows_view, sorted_rows, sync_unit_text, updated,
    RecordingStateError,
    RecordingStore, VideoRecording, VideoRecordingView,
};
use crate::reply::{
    Camera, CameraRecordingLoadReply, CameraRecordingStarted, CameraRecordingStopped,
    CamerasLoadReply, CrashReportOsLogsReply, DeviceInfoLoadReply, NatsReply,
    NetworkInterfaceAddress, PrintNannyCloudAuthReply, PrintNannyCloudSyncReply,
    SettingsFileApplyReply, SettingsFileLoadReply, SettingsFileRevertReply,
    SystemdManagerDisableUnitsReply, SystemdManagerEnableUnitsReply,
    SystemdManagerGetUnitFileStateReply, SystemdManagerGetUnitReply,
    SystemdManagerRestartUnitReply, SystemdManagerStartUnitReply, SystemdManagerStopUnitReply,
};
use crate::settings::PrintNannySettings;
use crate::subject::Subject;
use crate::text::joined_path;
use crate::systemd::{
    bus_error, copy_texts, sync_unit_call, unit_file_state_from_bus,
    unit_from_properties, unit_of, BusCall, BusCallView, BusFault, JobMode, SystemdUnit,
    SystemdUnitChange, SystemdUnitFileState, UnitControlError, UnitJob, UnitProperties,
};
use crate::vcs::{
    commits_view, RepositoryView, SettingsApp, SettingsFile,
    SettingsFileView, SettingsRepository, VcsError,
};
use crate::video::VideoStreamSettings;
use vstd::prelude::*;

verus! {

/// The engine that owns an operation.
#[derive(Clone, Copy, PartialEq, Eq, Structural, Debug)]
pub enum Engine {
    Settings,
    Recording,
    Units,
    Cloud,
    Device,
}

/// Where a handler runs.
#[derive(Clone, Copy, PartialEq, Eq, Structural, Debug)]
pub enum WorkClass {
    /// It reads or writes the disk, the repository or a subprocess: it runs
    /// on the pool for blocking work.
    Blocking,
    /// It only calls the bus or the network: it runs where the request
    /// arrived.
    Inline,
}

impl Subject {
    /// The engine that owns the subject's operation.
    pub open spec fn spec_engine(self) -> Engine {
        match self {
            Subject::CameraRecordingLoad => Engine::Recording,
            Subject::CameraRecordingStart => Engine::Recording,
            Subject::CameraRecordingStop => Engine::Recording,
            Subject::CamerasLoad => Engine::Device,
            Subject::CloudSync => Engine::Cloud,
            Subject::CrashReportOsLogs => Engine::Cloud,
            Subject::DeviceInfoLoad => Engine::Device,
            Subject::CloudAuth => Engine::Cloud,
            Subject::SettingsFileLoad => Engine::Settings,
            Subject::SettingsFileApply => Engine::Settings,
            Subject::SettingsFileRevert => Engine::Settings,
            Subject::CameraSettingsApply => Engine::Settings,
            Subject::CameraSettingsLoad => Engine::Settings,
            Subject::DisableUnit => Engine::Units,
            Subject::EnableUnit => Engine::Units,
            Subject::GetUnit => Engine::Units,
            Subject::GetUnitFileState => Engine::Units,
            Subject::RestartUnit => Engine::Units,
            Subject::StartUnit => Engine::Units,
            Subject::StopUnit => Engine::Units,
        }
    }

    /// The engine that owns the subject's operation.
    pub fn engine(self) -> (engine: Engine)
        ensures
            engine == self.spec_engine(),
    {
        match self {
            Subject::CameraRecordingLoad => Engine::Recording,
            Subject::CameraRecordingStart => Engine::Recording,
            Subject::CameraRecordingStop => Engine::Recording,
            Subject::CamerasLoad => Engine::Device,
            Subject::CloudSync => Engine::Cloud,
            Subject::CrashReportOsLogs => Engine::Cloud,
            Subject::DeviceInfoLoad => Engine::Device,
            Subject::CloudAuth => Engine::Cloud,
            Subject::SettingsFileLoad => Engine::Settings,
            Subject::SettingsFileApply => Engine::Settings,
            Subject::SettingsFileRevert => Engine::Settings,
            Subject::CameraSettingsApply => Engine::Settings,
            Subject::CameraSettingsLoad => Engine::Settings,
            Subject::DisableUnit => Engine::Units,
            Subject::EnableUnit => Engine::Units,
            Subject::GetUnit => Engine::Units,
            Subject::GetUnitFileState => Engine::Units,
            Subject::RestartUnit => Engine::Units,
            Subject::StartUnit => Engine::Units,
            Subject::StopUnit => Engine::Units,
        }
    }

    /// Where the subject's handler runs: inline where it only calls the bus
    /// or the cloud, on the pool for blocking work where it touches the
    /// disk, the repository or a subprocess.
    pub fn work_class(self) -> (class: WorkClass)
        ensures
            class == match self.spec_engine() {
                Engine::Units => WorkClass::Inline,
                Engine::Cloud => WorkClass::Inline,
                _ => WorkClass::Blocking,
            },
    {
        match self.engine() {
            Engine::Units => WorkClass::Inline,
            Engine::Cloud => WorkClass::Inline,
            _ => WorkClass::Blocking,
        }
    }
}

/// Whether a reply is of the variant that answers a request.
pub open spec fn answers(reply: NatsReply, request: NatsRequestView) -> bool {
    reply.spec_subject() == request.subject()
}

/// Requests and replies correspond through their subjects: under every
/// subject a request is asked and a reply answers it.
pub proof fn every_subject_is_asked_and_answered(subject: Subject)
    ensures
        exists|request: NatsRequestView, reply: NatsReply|
            request.subject() == subject && #[trigger] answers(reply, request),
{
    let request = match subject {
        Subject::CameraRecordingLoad => NatsRequestView::CameraRecordingLoadRequest,
        Subject::CameraRecordingStart => NatsRequestView::CameraRecordingStartRequest,
        Subject::CameraRecordingStop => NatsRequestView::CameraRecordingStopRequest,
        Subject::CamerasLoad => NatsRequestView::CameraLoadRequest,
        Subject::CloudSync => NatsRequestView::PrintNannyCloudSyncRequest,
        Subject::CrashReportOsLogs => NatsRequestView::CrashReportOsLogsRequest(arbitrary()),
        Subject::DeviceInfoLoad => NatsRequestView::DeviceInfoLoadRequest,
        Subject::CloudAuth => NatsRequestView::PrintNannyCloudAuthRequest(arbitrary()),
        Subject::SettingsFileLoad => NatsRequestView::SettingsFileLoadRequest,
        Subject::SettingsFileApply => NatsRequestView::SettingsFileApplyRequest(arbitrary()),
        Subject::SettingsFileRevert => NatsRequestView::SettingsFileRevertRequest(arbitrary()),
        Subject::CameraSettingsApply => NatsRequestView::CameraSettingsFileApplyRequest(
            arbitrary(),
        ),
        Subject::CameraSettingsLoad => NatsRequestView::CameraSettingsFileLoadRequest,
        Subject::DisableUnit => NatsRequestView::SystemdManagerDisableUnitsRequest(arbitrary()),
        Subject::EnableUnit => NatsRequestView::SystemdManagerEnableUnitsRequest(arbitrary()),
        Subject::GetUnit => NatsRequestView::SystemdManagerGetUnitRequest(arbitrary()),
        Subject::GetUnitFileState => NatsRequestView::SystemdManagerGetUnitFileStateRequest(
            arbitrary(),
        ),
        Subject::RestartUnit => NatsRequestView::SystemdManagerRestartUnitRequest(arbitrary()),
        Subject::StartUnit => NatsRequestView::SystemdManagerStartUnitRequest(arbitrary()),
        Subject::StopUnit => NatsRequestView::SystemdManagerStopUnitRequest(arbitrary()),
    };
    let reply = match subject {
        Subject::CameraRecordingLoad => NatsReply::CameraRecordingLoadReply(arbitrary()),
        Subject::CameraRecordingStart => NatsReply::CameraRecordingStartReply(arbitrary()),
        Subject::CameraRecordingStop => NatsReply::CameraRecordingStopReply(arbitrary()),
        Subject::CamerasLoad => NatsReply::CameraLoadReply(arbitrary()),
        Subject::CloudSync => NatsReply::PrintNannyCloudSyncReply(arbitrary()),
        Subject::CrashReportOsLogs => NatsReply::CrashReportOsLogsReply(arbitrary()),
        Subject::DeviceInfoLoad => NatsReply::DeviceInfoLoadReply(arbitrary()),
        Subject::CloudAuth => NatsReply::PrintNannyCloudAuthReply(arbitrary()),
        Subject::SettingsFileLoad => NatsReply::SettingsFileLoadReply(arbitrary()),
        Subject::SettingsFileApply => NatsReply::SettingsFileApplyReply(arbitrary()),
        Subject::SettingsFileRevert => NatsReply::SettingsFileRevertReply(arbitrary()),
        Subject::CameraSettingsApply => NatsReply::CameraSettingsFileApplyReply(arbitrary()),
        Subject::CameraSettingsLoad => NatsReply::CameraSettingsFileLoadReply(arbitrary()),
        Subject::DisableUnit => NatsReply::SystemdManagerDisableUnitsReply(arbitrary()),
        Subject::EnableUnit => NatsReply::SystemdManagerEnableUnitsReply(arbitrary()),
        Subject::GetUnit => NatsReply::SystemdManagerGetUnitReply(arbitrary()),
        Subject::GetUnitFileState => NatsReply::SystemdManagerGetUnitFileStateReply(arbitrary()),
        Subject::RestartUnit => NatsReply::SystemdManagerRestartUnitReply(arbitrary()),
        Subject::StartUnit => NatsReply::SystemdManagerStartUnitReply(arbitrary()),
        Subject::StopUnit => NatsReply::SystemdManagerStopUnitReply(arbitrary()),
    };
    assert(request.subject() == subject && answers(reply, request));
}

/// The view of a recording that may be absent.
pub open spec fn opt_row(row: Option<VideoRecording>) -> Option<VideoRecordingView> {
    match row {
        Some(r) => Some(r@),
        None => None,
    }
}

/// The sentence that tells of an account that was connected.
pub open spec fn auth_success_text(email: Seq<char>) -> Seq<char> {
    "Success! Connected account: "@ + email
}

/// The sentence that tells why no account was connected.
pub open spec fn auth_failure_text(error: Seq<char>) -> Seq<char> {
    "Error connecting account: "@ + error
}

/// The message of the commit that records new settings of the video
/// stream.
pub open spec fn camera_commit_text(when: Seq<char>) -> Seq<char> {
    "Updated PrintNannySettings.camera @ "@ + when
}

impl NatsRequest {
    /// Lists all recordings and names the current one.
    pub fn handle_camera_recording_load(store: &RecordingStore) -> (reply: NatsReply)
        ensures
            reply matches NatsReply::CameraRecordingLoadReply(r) && rows_view(r.recordings@)
                == sorted_rows(store@, store@.len() as int) && opt_row(r.current) == match current_of(
                store@,
            ) {
                Some(i) => Some(store@[i]),
                None => None,
            },
    {
        let recordings = store.get_all();
        let current = match store.get_current() {
            Some(row) => Some(row.clone()),
            None => None,
        };
        NatsReply::CameraRecordingLoadReply(CameraRecordingLoadReply { recordings, current })
    }

    /// Starts a recording in the directory of its own below `video_path`,
    /// under a fresh random id. While a recording is open it fails and
    /// changes nothing; else it adds the new open row and nothing besides,
    /// unless the id that was drawn is taken.
    pub fn handle_camera_recording_start(store: &mut RecordingStore, video_path: &str) -> (r: Result<
        NatsReply,
        RecordingStateError,
    >)
        requires
            old(store).well_formed(),
        ensures
            final(store).well_formed(),
            recording(old(store)@) <==> (r matches Err(e) && e
                == RecordingStateError::AlreadyRecording),
            old(store)@.len() == 0 ==> r is Ok,
            r matches Err(e) ==> final(store)@ == old(store)@ && (e
                == RecordingStateError::AlreadyRecording || e == RecordingStateError::DuplicateId),
            r matches Ok(NatsReply::CameraRecordingStartReply(started)) ==> (final(store)@ == old(
                store,
            )@.push(started.recording@) && !holds_id(old(store)@, started.recording.id@)
                && exists|now: i64| #[trigger]
                new_row(
                    started.recording.id@,
                    joined_path(video_path@, started.recording.id@),
                    now,
                ) == started.recording@),
            r matches Ok(reply) ==> reply is CameraRecordingStartReply,
    {
        match store.start(video_path) {
            Ok(recording) => Ok(
                NatsReply::CameraRecordingStartReply(CameraRecordingStarted { recording }),
            ),
            Err(e) => Err(e),
        }
    }

    /// Stops the current recording. While none is open, the reply names no
    /// recording and nothing is to be done: that is no error. Else the row
    /// is closed, and where `cloud_sync` is set the second result is the
    /// call that starts the upload; whether that call succeeds does not
    /// matter to the row.
    pub fn handle_camera_recording_stop(
        store: &mut RecordingStore,
        cloud_sync: bool,
        template: &str,
    ) -> (r: (NatsReply, Option<BusCall>))
        requires
            old(store).well_formed(),
        ensures
            final(store).well_formed(),
            !recording(final(store)@),
            r.0 matches NatsReply::CameraRecordingStopReply(stopped) && (stopped.recording is None
                <==> !recording(old(store)@)) && (stopped.recording matches Some(row) ==> (
            row.capture_done && row.recording_end is Some)),
            !recording(old(store)@) ==> r.1 is None && final(store)@ == old(store)@,
            match current_of(old(store)@) {
                Some(i) => match r.1 {
                    Some(call) => cloud_sync && call@ == (BusCallView::StartUnit {
                        name: sync_unit_text(template@, old(store)@[i].id),
                        mode: JobMode::Fail,
                    }),
                    None => !cloud_sync,
                },
                None => r.1 is None,
            },
            match current_of(old(store)@) {
                Some(i) => r.0 matches NatsReply::CameraRecordingStopReply(stopped)
                    && stopped.recording matches Some(row) && final(store)@ == old(store)@.update(
                    i,
                    row@,
                ) && exists|now: i64| row@ == updated(old(store)@[i], #[trigger] closing_update(now)),
                None => true,
            },
    {
        let now = crate::recording::now();
        proof {
            crate::recording::current_is_open(store@, store@.len() as int);
        }
        let stopped = store.stop_at(cloud_sync, template, now);
        let call = match &stopped.sync_unit {
            Some(unit) => Some(sync_unit_call(unit.as_str())),
            None => None,
        };
        (
            NatsReply::CameraRecordingStopReply(
                CameraRecordingStopped { recording: stopped.recording },
            ),
            call,
        )
    }

    /// Tells when a sync with the cloud began and ended.
    pub fn handle_cloud_sync(start: String, end: String) -> (reply: NatsReply)
        ensures
            reply matches NatsReply::PrintNannyCloudSyncReply(r) && r.start@ == start@ && r.end@
                == end@,
    {
        NatsReply::PrintNannyCloudSyncReply(PrintNannyCloudSyncReply { start, end })
    }

    /// Describes the device. Addresses that could not be listed count as
    /// none.
    pub fn handle_device_info_load(
        issue: String,
        os_release: String,
        ifaddrs: Option<Vec<NetworkInterfaceAddress>>,
    ) -> (reply: NatsReply)
        ensures
            reply matches NatsReply::DeviceInfoLoadReply(r) && r.issue@ == issue@ && r.os_release@
                == os_release@ && r.printnanny_cli_version@ == ""@ && r.ifaddrs@ == match ifaddrs {
                Some(list) => list@,
                None => Seq::empty(),
            },
    {
        let ifaddrs = match ifaddrs {
            Some(list) => list,
            None => Vec::new(),
        };
        NatsReply::DeviceInfoLoadReply(
            DeviceInfoLoadReply {
                issue,
                os_release,
                printnanny_cli_version: "".to_owned(),
                ifaddrs,
            },
        )
    }

    /// Tells how connecting to a cloud account ended: 200 and the account
    /// where it was connected, 403 and the reason where it was not. Either
    /// way a reply, never an error.
    pub fn handle_printnanny_cloud_auth(
        request: &PrintNannyCloudAuthRequest,
        outcome: Result<(), String>,
    ) -> (reply: NatsReply)
        ensures
            reply matches NatsReply::PrintNannyCloudAuthReply(r) && match outcome {
                Ok(()) => r.status_code == 200 && r.msg@ == auth_success_text(request.email@),
                Err(e) => r.status_code == 403 && r.msg@ == auth_failure_text(e@),
            },
    {
        match outcome {
            Ok(()) => {
                let mut msg = "Success! Connected account: ".to_owned();
                msg.append(request.email.as_str());
                NatsReply::PrintNannyCloudAuthReply(
                    PrintNannyCloudAuthReply { status_code: 200, msg },
                )
            },
            Err(e) => {
                let mut msg = "Error connecting account: ".to_owned();
                msg.append(e.as_str());
                NatsReply::PrintNannyCloudAuthReply(
                    PrintNannyCloudAuthReply { status_code: 403, msg },
                )
            },
        }
    }

    /// Tells which crash report was updated and when.
    pub fn handle_crash_report(id: String, updated_dt: String) -> (reply: NatsReply)
        ensures
            reply matches NatsReply::CrashReportOsLogsReply(r) && r.id@ == id@ && r.updated_dt@
                == updated_dt@,
    {
        NatsReply::CrashReportOsLogsReply(CrashReportOsLogsReply { id, updated_dt })
    }

    /// Lists the cameras.
    pub fn handle_cameras_load(cameras: Vec<Camera>) -> (reply: NatsReply)
        ensures
            reply matches NatsReply::CameraLoadReply(r) && r.cameras@ == cameras@,
    {
        NatsReply::CameraLoadReply(CamerasLoadReply { cameras })
    }

    fn revert_domain(
        repo: &mut SettingsRepository,
        app: SettingsApp,
        git_commit: &str,
        ts: i64,
    ) -> (r: Result<NatsReply, VcsError>)
        requires
            old(repo).well_formed(),
        ensures
            final(repo).well_formed(),
            match r {
                Ok(reply) => {
                    &&& reply matches NatsReply::SettingsFileRevertReply(reverted)
                    &&& old(repo)@.reverted(git_commit@, ts as int) == Ok::<
                        RepositoryView,
                        VcsError,
                    >(final(repo)@)
                    &&& reverted.app == app
                    &&& reverted.files@.len() == 1
                    &&& final(repo)@.loaded(app) == Ok::<SettingsFileView, VcsError>(
                        reverted.files@[0]@,
                    )
                    &&& reverted.git_head_commit@ == final(repo)@.commits.last().info.oid
                    &&& commits_view(reverted.git_history@) == final(repo)@.history(app)
                },
                Err(e) => {
                    ||| (old(repo)@.reverted(git_commit@, ts as int) == Err::<
                        RepositoryView,
                        VcsError,
                    >(e) && final(repo)@ == old(repo)@)
                    ||| (old(repo)@.reverted(git_commit@, ts as int) == Ok::<
                        RepositoryView,
                        VcsError,
                    >(final(repo)@) && final(repo)@.loaded(app) == Err::<
                        SettingsFileView,
                        VcsError,
                    >(e))
                },
            },
    {
        let git_head_commit = repo.git_revert(git_commit, ts)?;
        let file = repo.to_payload(app)?;
        let mut files: Vec<SettingsFile> = Vec::new();
        files.push(file);
        let git_history = repo.get_rev_list(app)?;
        Ok(
            NatsReply::SettingsFileRevertReply(
                SettingsFileRevertReply { app, files, git_head_commit, git_history },
            ),
        )
    }

    /// Undoes the commit that the request names, by a new commit on top of
    /// the head, and replies with the file of the device's own domain as it
    /// stands then, the new head and that domain's history, whatever domain
    /// the request names.
    pub fn handle_printnanny_settings_revert(
        repo: &mut SettingsRepository,
        request: &SettingsFileRevertRequest,
        ts: i64,
    ) -> (r: Result<NatsReply, VcsError>)
        requires
            old(repo).well_formed(),
        ensures
            final(repo).well_formed(),
            match r {
                Ok(reply) => {
                    &&& reply matches NatsReply::SettingsFileRevertReply(reverted)
                    &&& old(repo)@.reverted(request.git_commit@, ts as int) == Ok::<
                        RepositoryView,
                        VcsError,
                    >(final(repo)@)
                    &&& reverted.app == SettingsApp::Printnanny
                    &&& reverted.files@.len() == 1
                    &&& final(repo)@.loaded(SettingsApp::Printnanny) == Ok::<
                        SettingsFileView,
                        VcsError,
                    >(reverted.files@[0]@)
                    &&& reverted.git_head_commit@ == final(repo)@.commits.last().info.oid
                    &&& commits_view(reverted.git_history@) == final(repo)@.history(
                        SettingsApp::Printnanny,
                    )
                },
                Err(e) => {
                    ||| (old(repo)@.reverted(request.git_commit@, ts as int) == Err::<
                        RepositoryView,
                        VcsError,
                    >(e) && final(repo)@ == old(repo)@)
                    ||| (old(repo)@.reverted(request.git_commit@, ts as int) == Ok::<
                        RepositoryView,
                        VcsError,
                    >(final(repo)@) && final(repo)@.loaded(SettingsApp::Printnanny) == Err::<
                        SettingsFileView,
                        VcsError,
                    >(e))
                },
            },
    {
        Self::revert_domain(repo, SettingsApp::Printnanny, request.git_commit.as_str(), ts)
    }

    /// Undoes the commit that the request names, by a new commit on top of
    /// the head, and replies with the file of the request's domain as it
    /// stands then, the new head and the domain's history.
    pub fn handle_settings_revert(
        repo: &mut SettingsRepository,
        request: &SettingsFileRevertRequest,
        ts: i64,
    ) -> (r: Result<NatsReply, VcsError>)
        requires
            old(repo).well_formed(),
        ensures
            final(repo).well_formed(),
            match r {
                Ok(reply) => {
                    &&& reply matches NatsReply::SettingsFileRevertReply(reverted)
                    &&& old(repo)@.reverted(request.git_commit@, ts as int) == Ok::<
                        RepositoryView,
                        VcsError,
                    >(final(repo)@)
                    &&& reverted.app == request.app
                    &&& reverted.files@.len() == 1
                    &&& final(repo)@.loaded(request.app) == Ok::<SettingsFileView, VcsError>(
                        reverted.files@[0]@,
                    )
                    &&& reverted.git_head_commit@ == final(repo)@.commits.last().info.oid
                    &&& commits_view(reverted.git_history@) == final(repo)@.history(request.app)
                },
                Err(e) => {
                    ||| (old(repo)@.reverted(request.git_commit@, ts as int) == Err::<
                        RepositoryView,
                        VcsError,
                    >(e) && final(repo)@ == old(repo)@)
                    ||| (old(repo)@.reverted(request.git_commit@, ts as int) == Ok::<
                        RepositoryView,
                        VcsError,
                    >(final(repo)@) && final(repo)@.loaded(request.app) == Err::<
                        SettingsFileView,
                        VcsError,
                    >(e))
                },
            },
    {
        Self::revert_domain(repo, request.app, request.git_commit.as_str(), ts)
    }

    /// Writes the request's file to its domain and commits it under the
    /// request's message.
    pub fn handle_settings_apply(
        repo: &mut SettingsRepository,
        request: &SettingsFileApplyRequest,
        ts: i64,
    ) -> (r: Result<NatsReply, VcsError>)
        requires
            old(repo).well_formed(),
        ensures
            final(repo).well_formed(),
            match r {
                Ok(reply) => {
                    &&& reply matches NatsReply::SettingsFileApplyReply(applied)
                    &&& old(repo)@.applied(
                        request.file.app,
                        request.file.content@,
                        Some(request.git_commit_msg@),
                        ts as int,
                    ) == Ok::<RepositoryView, VcsError>(final(repo)@)
                    &&& applied.file@.content == request.file.content@
                    &&& applied.file@.app == request.file.app
                    &&& applied.git_head_commit@ == final(repo)@.commits.last().info.oid
                    &&& commits_view(applied.git_history@) == final(repo)@.history(
                        request.file.app,
                    )
                },
                Err(e) => old(repo)@.applied(
                    request.file.app,
                    request.file.content@,
                    Some(request.git_commit_msg@),
                    ts as int,
                ) == Err::<RepositoryView, VcsError>(e) && final(repo)@ == old(repo)@,
            },
    {
        let applied = repo.save_and_commit(
            request.file.app,
            request.file.content.as_str(),
            Some(request.git_commit_msg.clone()),
            ts,
        )?;
        Ok(
            NatsReply::SettingsFileApplyReply(
                SettingsFileApplyReply {
                    file: applied.file,
                    git_head_commit: applied.git_head_commit,
                    git_history: applied.git_history,
                },
            ),
        )
    }

    /// Loads the files of all four domains, the device's own first, with
    /// the head commit and the whole log, newest first.
    pub fn handle_settings_load(repo: &SettingsRepository) -> (r: Result<NatsReply, VcsError>)
        ensures
            match r {
                Ok(reply) => {
                    &&& reply matches NatsReply::SettingsFileLoadReply(loaded)
                    &&& repo@.commits.len() > 0
                    &&& loaded.files@.len() == 4
                    &&& repo@.loaded(SettingsApp::Printnanny) == Ok::<SettingsFileView, VcsError>(
                        loaded.files@[0]@,
                    )
                    &&& repo@.loaded(SettingsApp::Octoprint) == Ok::<SettingsFileView, VcsError>(
                        loaded.files@[1]@,
                    )
                    &&& repo@.loaded(SettingsApp::Moonraker) == Ok::<SettingsFileView, VcsError>(
                        loaded.files@[2]@,
                    )
                    &&& repo@.loaded(SettingsApp::Klipper) == Ok::<SettingsFileView, VcsError>(
                        loaded.files@[3]@,
                    )
                    &&& loaded.git_head_commit@ == repo@.commits.last().info.oid
                    &&& commits_view(loaded.git_history@) == repo@.log()
                },
                Err(e) => if repo@.commits.len() == 0 {
                    e == VcsError::Uninitialized
                } else {
                    e == VcsError::Io && (repo@.loaded(SettingsApp::Printnanny) is Err
                        || repo@.loaded(SettingsApp::Octoprint) is Err || repo@.loaded(
                        SettingsApp::Moonraker,
                    ) is Err || repo@.loaded(SettingsApp::Klipper) is Err)
                },
            },
    {
        let head = repo.get_git_head_commit()?;
        let git_history = repo.git_log()?;
        let mut files: Vec<SettingsFile> = Vec::new();
        files.push(repo.to_payload(SettingsApp::Printnanny)?);
        files.push(repo.to_payload(SettingsApp::Octoprint)?);
        files.push(repo.to_payload(SettingsApp::Moonraker)?);
        files.push(repo.to_payload(SettingsApp::Klipper)?);
        Ok(
            NatsReply::SettingsFileLoadReply(
                SettingsFileLoadReply { files, git_head_commit: head.oid, git_history },
            ),
        )
    }

    /// Replies with the settings of the video stream.
    pub fn handle_camera_settings_load(settings: &PrintNannySettings) -> (reply: NatsReply)
        ensures
            reply matches NatsReply::CameraSettingsFileLoadReply(video) && video
                == settings.video_stream,
    {
        NatsReply::CameraSettingsFileLoadReply(settings.video_stream.clone())
    }

    /// Replaces the settings of the video stream and commits the device's
    /// own file, which the caller has written out as `content`, under a
    /// message that names the time `when`. Where the commit fails the
    /// settings stay as they were.
    pub fn handle_camera_settings_apply(
        repo: &mut SettingsRepository,
        settings: &mut PrintNannySettings,
        request: &VideoStreamSettings,
        content: &str,
        when: &str,
        ts: i64,
    ) -> (r: Result<NatsReply, VcsError>)
        requires
            old(repo).well_formed(),
        ensures
            final(repo).well_formed(),
            match r {
                Ok(reply) => {
                    &&& reply matches NatsReply::CameraSettingsFileApplyReply(video)
                    &&& video == *request
                    &&& final(settings).video_stream == *request
                    &&& old(repo)@.applied(
                        SettingsApp::Printnanny,
                        content@,
                        Some(camera_commit_text(when@)),
                        ts as int,
                    ) == Ok::<RepositoryView, VcsError>(final(repo)@)
                },
                Err(e) => old(repo)@.applied(
                    SettingsApp::Printnanny,
                    content@,
                    Some(camera_commit_text(when@)),
                    ts as int,
                ) == Err::<RepositoryView, VcsError>(e) && final(repo)@ == old(repo)@
                    && final(settings).video_stream == old(settings).video_stream,
            },
    {
        let mut commit_msg = "Updated PrintNannySettings.camera @ ".to_owned();
        commit_msg.append(when);
        let _ = repo.save_and_commit(SettingsApp::Printnanny, content, Some(commit_msg), ts)?;
        settings.video_stream = request.clone();
        Ok(NatsReply::CameraSettingsFileApplyReply(request.clone()))
    }

    /// Replies to a request that disabled unit files, once the changes are
    /// read and the manager was asked to reload.
    pub fn handle_disable_units_request(
        request: &SystemdManagerUnitFilesRequest,
        changes: Vec<SystemdUnitChange>,
        reload: Result<(), BusFault>,
    ) -> (r: Result<NatsReply, UnitControlError>)
        ensures
            match reload {
                Ok(()) => r matches Ok(NatsReply::SystemdManagerDisableUnitsReply(reply))
                    && reply.changes@ == changes@ && reply.request@ == request@,
                Err(fault) => r matches Err(UnitControlError::BusTransport(message)) && message@
                    == fault.message@,
            },
    {
        match reload {
            Ok(()) => Ok(
                NatsReply::SystemdManagerDisableUnitsReply(
                    SystemdManagerDisableUnitsReply {
                        changes,
                        request: SystemdManagerUnitFilesRequest {
                            files: copy_texts(&request.files),
                        },
                    },
                ),
            ),
            Err(fault) => Err(bus_error(fault)),
        }
    }

    /// Replies to a request that enabled unit files, once the changes are
    /// read and the manager was asked to reload.
    pub fn handle_enable_units_request(
        request: &SystemdManagerUnitFilesRequest,
        changes: Vec<SystemdUnitChange>,
        reload: Result<(), BusFault>,
    ) -> (r: Result<NatsReply, UnitControlError>)
        ensures
            match reload {
                Ok(()) => r matches Ok(NatsReply::SystemdManagerEnableUnitsReply(reply))
                    && reply.changes@ == changes@ && reply.request@ == request@,
                Err(fault) => r matches Err(UnitControlError::BusTransport(message)) && message@
                    == fault.message@,
            },
    {
        match reload {
            Ok(()) => Ok(
                NatsReply::SystemdManagerEnableUnitsReply(
                    SystemdManagerEnableUnitsReply {
                        changes,
                        request: SystemdManagerUnitFilesRequest {
                            files: copy_texts(&request.files),
                        },
                    },
                ),
            ),
            Err(fault) => Err(bus_error(fault)),
        }
    }

    /// Reads a unit from its properties.
    pub fn get_systemd_unit(properties: Result<UnitProperties, BusFault>) -> (r: Result<
        SystemdUnit,
        UnitControlError,
    >)
        ensures
            match properties {
                Err(fault) => r matches Err(UnitControlError::BusTransport(message)) && message@
                    == fault.message@,
                Ok(p) => match unit_of(p) {
                    Some(unit) => r matches Ok(u) && u@ == unit,
                    None => r matches Err(e) && e is UnknownUnitState,
                },
            },
    {
        unit_from_properties(properties)
    }

    /// Replies with the unit that was looked up.
    pub fn handle_get_unit_request(properties: Result<UnitProperties, BusFault>) -> (r: Result<
        NatsReply,
        UnitControlError,
    >)
        ensures
            match properties {
                Err(fault) => r matches Err(UnitControlError::BusTransport(message)) && message@
                    == fault.message@,
                Ok(p) => match unit_of(p) {
                    Some(unit) => r matches Ok(NatsReply::SystemdManagerGetUnitReply(reply))
                        && reply.unit@ == unit,
                    None => r matches Err(e) && e is UnknownUnitState,
                },
            },
    {
        let unit = Self::get_systemd_unit(properties)?;
        Ok(NatsReply::SystemdManagerGetUnitReply(SystemdManagerGetUnitReply { unit }))
    }

    /// Replies with the state of a unit's file. A unit that does not exist
    /// makes the call on the bus fail: that, like a state that is not
    /// known, is an error of its own and nothing worse.
    pub fn handle_get_unit_file_state_request(
        request: &SystemdManagerGetUnitRequest,
        answer: Result<String, BusFault>,
    ) -> (r: Result<NatsReply, UnitControlError>)
        ensures
            match answer {
                Err(fault) => r matches Err(UnitControlError::BusTransport(message)) && message@
                    == fault.message@,
                Ok(text) => match SystemdUnitFileState::spec_from_text(text@) {
                    Some(state) => r matches Ok(
                        NatsReply::SystemdManagerGetUnitFileStateReply(reply),
                    ) && reply.unit_file_state == state && reply.request@ == request@,
                    None => r matches Err(e) && e is UnknownUnitState,
                },
            },
    {
        let unit_file_state = unit_file_state_from_bus(answer)?;
        Ok(
            NatsReply::SystemdManagerGetUnitFileStateReply(
                SystemdManagerGetUnitFileStateReply {
                    unit_file_state,
                    request: SystemdManagerGetUnitRequest { unit_name: request.unit_name.clone() },
                },
            ),
        )
    }

    /// Replies to a job on one unit: with the job that was queued and the
    /// unit as it is then. Where the job could not be queued the unit is not
    /// looked at.
    pub fn handle_unit_job_request(
        kind: UnitJob,
        job: Result<String, BusFault>,
        properties: Result<UnitProperties, BusFault>,
    ) -> (r: Result<NatsReply, UnitControlError>)
        ensures
            match job {
                Err(fault) => r matches Err(UnitControlError::BusTransport(message)) && message@
                    == fault.message@,
                Ok(path) => match properties {
                    Err(fault) => r matches Err(UnitControlError::BusTransport(message))
                        && message@ == fault.message@,
                    Ok(p) => match unit_of(p) {
                        Some(unit) => r matches Ok(reply) && job_reply_is(reply, kind, path@, unit),
                        None => r matches Err(e) && e is UnknownUnitState,
                    },
                },
            },
    {
        let job = match job {
            Ok(path) => path,
            Err(fault) => {
                return Err(bus_error(fault));
            },
        };
        let unit = Self::get_systemd_unit(properties)?;
        Ok(
            match kind {
                UnitJob::Start => NatsReply::SystemdManagerStartUnitReply(
                    SystemdManagerStartUnitReply { job, unit },
                ),
                UnitJob::Stop => NatsReply::SystemdManagerStopUnitReply(
                    SystemdManagerStopUnitReply { job, unit },
                ),
                UnitJob::Restart => NatsReply::SystemdManagerRestartUnitReply(
                    SystemdManagerRestartUnitReply { job, unit },
                ),
            },
        )
    }
}

/// Whether a reply is the one to a job of this kind, and names this job
/// and this unit.
pub open spec fn job_reply_is(
    reply: NatsReply,
    kind: UnitJob,
    job: Seq<char>,
    unit: crate::systemd::SystemdUnitView,
) -> bool {
    match (kind, reply) {
        (UnitJob::Start, NatsReply::SystemdManagerStartUnitReply(r)) => r.job@ == job && r.unit@
            == unit,
        (UnitJob::Stop, NatsReply::SystemdManagerStopUnitReply(r)) => r.job@ == job && r.unit@
            == unit,
        (UnitJob::Restart, NatsReply::SystemdManagerRestartUnitReply(r)) => r.job@ == job
            && r.unit@ == unit,
        _ => false,
    }
}

} // verus!
