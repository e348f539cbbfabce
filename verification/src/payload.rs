//! What the requests carry, and the fixed schema by which each is read from
//! a JSON document: an object that has every field, each of its type, and no
//! member besides.
use crate::json::{
    bool_at, bool_member, find, i32_at, i32_member, keys_within, lookup, members_view, names_view,
    only_keys, text_at, text_items, text_member, texts_of, texts_view, JsonDoc, JsonMember,
    JsonValue,
};
use crate::vcs::{files_view, SettingsApp, SettingsFile, SettingsFileView, SettingsFormat};
use crate::video::{
    CameraSettings, CameraSettingsView, DetectionSettings, DetectionSettingsView, HlsSettings,
    HlsSettingsView, RecordingSettings, RecordingSettingsView, RtpSettings, SnapshotSettings,
    SnapshotSettingsView, VideoStreamSettings, VideoStreamSettingsView,
};
use vstd::prelude::*;

verus! {

/// Asks for the logs that belong to a crash report.
#[derive(Debug, PartialEq, Eq)]
pub struct CrashReportOsLogsRequest {
    pub id: String,
}

pub struct CrashReportOsLogsRequestView {
    pub id: Seq<char>,
}

impl View for CrashReportOsLogsRequest {
    type V = CrashReportOsLogsRequestView;

    open spec fn view(&self) -> CrashReportOsLogsRequestView {
        CrashReportOsLogsRequestView { id: self.id@ }
    }
}

/// Connects the device to a cloud account.
#[derive(Debug, PartialEq, Eq)]
pub struct PrintNannyCloudAuthRequest {
    pub email: String,
    pub api_token: String,
    pub api_url: String,
}

pub struct PrintNannyCloudAuthRequestView {
    pub email: Seq<char>,
    pub api_token: Seq<char>,
    pub api_url: Seq<char>,
}

impl View for PrintNannyCloudAuthRequest {
    type V = PrintNannyCloudAuthRequestView;

    open spec fn view(&self) -> PrintNannyCloudAuthRequestView {
        PrintNannyCloudAuthRequestView {
            email: self.email@,
            api_token: self.api_token@,
            api_url: self.api_url@,
        }
    }
}

/// Writes one domain's file and commits the change.
#[derive(Debug, PartialEq, Eq)]
pub struct SettingsFileApplyRequest {
    pub file: SettingsFile,
    pub git_head_commit: String,
    pub git_commit_msg: String,
}

pub struct SettingsFileApplyRequestView {
    pub file: SettingsFileView,
    pub git_head_commit: Seq<char>,
    pub git_commit_msg: Seq<char>,
}

impl View for SettingsFileApplyRequest {
    type V = SettingsFileApplyRequestView;

    open spec fn view(&self) -> SettingsFileApplyRequestView {
        SettingsFileApplyRequestView {
            file: self.file@,
            git_head_commit: self.git_head_commit@,
            git_commit_msg: self.git_commit_msg@,
        }
    }
}

/// Undoes one commit of a domain.
#[derive(Debug, PartialEq, Eq)]
pub struct SettingsFileRevertRequest {
    pub app: SettingsApp,
    pub files: Vec<SettingsFile>,
    pub git_commit: String,
}

pub struct SettingsFileRevertRequestView {
    pub app: SettingsApp,
    pub files: Seq<SettingsFileView>,
    pub git_commit: Seq<char>,
}

impl View for SettingsFileRevertRequest {
    type V = SettingsFileRevertRequestView;

    open spec fn view(&self) -> SettingsFileRevertRequestView {
        SettingsFileRevertRequestView {
            app: self.app,
            files: files_view(self.files@),
            git_commit: self.git_commit@,
        }
    }
}

/// Names unit files to enable or to disable.
#[derive(Debug, PartialEq, Eq)]
pub struct SystemdManagerUnitFilesRequest {
    pub files: Vec<String>,
}

pub struct SystemdManagerUnitFilesRequestView {
    pub files: Seq<Seq<char>>,
}

impl View for SystemdManagerUnitFilesRequest {
    type V = SystemdManagerUnitFilesRequestView;

    open spec fn view(&self) -> SystemdManagerUnitFilesRequestView {
        SystemdManagerUnitFilesRequestView { files: texts_view(self.files@) }
    }
}

/// Names the unit to look up. Its view is the unit's name.
#[derive(Debug, PartialEq, Eq)]
pub struct SystemdManagerGetUnitRequest {
    pub unit_name: String,
}

impl View for SystemdManagerGetUnitRequest {
    type V = Seq<char>;

    open spec fn view(&self) -> Seq<char> {
        self.unit_name@
    }
}

/// Names the unit to restart. Its view is the unit's name.
#[derive(Debug, PartialEq, Eq)]
pub struct SystemdManagerRestartUnitRequest {
    pub unit_name: String,
}

impl View for SystemdManagerRestartUnitRequest {
    type V = Seq<char>;

    open spec fn view(&self) -> Seq<char> {
        self.unit_name@
    }
}

/// Names the unit to start. Its view is the unit's name.
#[derive(Debug, PartialEq, Eq)]
pub struct SystemdManagerStartUnitRequest {
    pub unit_name: String,
}

impl View for SystemdManagerStartUnitRequest {
    type V = Seq<char>;

    open spec fn view(&self) -> Seq<char> {
        self.unit_name@
    }
}

/// Names the unit to stop. Its view is the unit's name.
#[derive(Debug, PartialEq, Eq)]
pub struct SystemdManagerStopUnitRequest {
    pub unit_name: String,
}

impl View for SystemdManagerStopUnitRequest {
    type V = Seq<char>;

    open spec fn view(&self) -> Seq<char> {
        self.unit_name@
    }
}

/// The members of an object none of whose members bears a name outside
/// `allowed`.
pub open spec fn object_of(doc: JsonDoc, allowed: Seq<&'static str>) -> Option<
    Seq<(Seq<char>, JsonDoc)>,
> {
    match doc {
        JsonDoc::Object(members) => if only_keys(members, names_view(allowed)) {
            Some(members)
        } else {
            None
        },
        _ => None,
    }
}

/// Computes `object_of`.
pub fn object_with<'a>(value: &'a JsonValue, allowed: &Vec<&'static str>) -> (r: Option<
    &'a Vec<JsonMember>,
>)
    ensures
        match r {
            Some(members) => object_of(value@, allowed@) == Some(members_view(members@)),
            None => object_of(value@, allowed@) is None,
        },
{
    match value.members() {
        Some(members) => {
            if keys_within(members, allowed) {
                Some(members)
            } else {
                None
            }
        },
        None => None,
    }
}

/// The members of a request for a crash report's logs.
pub open spec fn crash_report_fields() -> Seq<&'static str> {
    seq!["id"]
}

/// What a document holds where it is a request for a crash report's logs, by the fixed schema.
pub open spec fn crash_report_of(doc: JsonDoc) -> Option<CrashReportOsLogsRequestView> {
    match object_of(doc, crash_report_fields()) {
        Some(m) => match text_at(m, "id"@) {
            Some(id) => Some(CrashReportOsLogsRequestView { id }),
            None => None,
        },
        None => None,
    }
}

/// Computes `crash_report_of`.
pub fn crash_report_from_json(value: &JsonValue) -> (r: Option<CrashReportOsLogsRequest>)
    ensures
        match r {
            Some(request) => crash_report_of(value@) == Some(request@),
            None => crash_report_of(value@) is None,
        },
{
    let mut allowed: Vec<&'static str> = Vec::new();
    allowed.push("id");
    assert(allowed@ =~= crash_report_fields());
    let members = object_with(value, &allowed)?;
    let id = text_member(members, "id")?;
    Some(CrashReportOsLogsRequest { id })
}

/// The members of a request to connect a cloud account.
pub open spec fn cloud_auth_fields() -> Seq<&'static str> {
    seq!["email", "api_token", "api_url"]
}

/// What a document holds where it is a request to connect a cloud account, by the fixed schema.
pub open spec fn cloud_auth_of(doc: JsonDoc) -> Option<PrintNannyCloudAuthRequestView> {
    match object_of(doc, cloud_auth_fields()) {
        Some(m) => match (text_at(m, "email"@), text_at(m, "api_token"@), text_at(m, "api_url"@)) {
            (Some(email), Some(api_token), Some(api_url)) => Some(
                PrintNannyCloudAuthRequestView { email, api_token, api_url },
            ),
            _ => None,
        },
        None => None,
    }
}

/// Computes `cloud_auth_of`.
pub fn cloud_auth_from_json(value: &JsonValue) -> (r: Option<PrintNannyCloudAuthRequest>)
    ensures
        match r {
            Some(request) => cloud_auth_of(value@) == Some(request@),
            None => cloud_auth_of(value@) is None,
        },
{
    let mut allowed: Vec<&'static str> = Vec::new();
    allowed.push("email");
    allowed.push("api_token");
    allowed.push("api_url");
    assert(allowed@ =~= cloud_auth_fields());
    let members = object_with(value, &allowed)?;
    let email = text_member(members, "email")?;
    let api_token = text_member(members, "api_token")?;
    let api_url = text_member(members, "api_url")?;
    Some(PrintNannyCloudAuthRequest { email, api_token, api_url })
}

/// The domain that the member named `key` names.
pub open spec fn app_at(members: Seq<(Seq<char>, JsonDoc)>, key: Seq<char>) -> Option<SettingsApp> {
    match text_at(members, key) {
        Some(name) => SettingsApp::spec_from_name(name),
        None => None,
    }
}

/// Computes `app_at`.
pub fn app_member(members: &Vec<JsonMember>, key: &str) -> (r: Option<SettingsApp>)
    ensures
        r == app_at(members_view(members@), key@),
{
    let name = text_member(members, key)?;
    SettingsApp::from_name(name.as_str())
}

/// The members of a settings file.
pub open spec fn settings_file_fields() -> Seq<&'static str> {
    seq!["app", "content", "file_name", "file_format"]
}

/// What a document holds where it is a settings file, by the fixed schema.
pub open spec fn settings_file_of(doc: JsonDoc) -> Option<SettingsFileView> {
    match object_of(doc, settings_file_fields()) {
        Some(m) => match (
            app_at(m, "app"@),
            text_at(m, "content"@),
            text_at(m, "file_name"@),
            text_at(m, "file_format"@),
        ) {
            (Some(app), Some(content), Some(file_name), Some(format)) => match SettingsFormat::spec_from_name(
                format,
            ) {
                Some(file_format) => Some(
                    SettingsFileView { app, content, file_name, file_format },
                ),
                None => None,
            },
            _ => None,
        },
        None => None,
    }
}

/// Computes `settings_file_of`.
pub fn settings_file_from_json(value: &JsonValue) -> (r: Option<SettingsFile>)
    ensures
        match r {
            Some(file) => settings_file_of(value@) == Some(file@),
            None => settings_file_of(value@) is None,
        },
{
    let mut allowed: Vec<&'static str> = Vec::new();
    allowed.push("app");
    allowed.push("content");
    allowed.push("file_name");
    allowed.push("file_format");
    assert(allowed@ =~= settings_file_fields());
    let members = object_with(value, &allowed)?;
    let app = app_member(members, "app")?;
    let content = text_member(members, "content")?;
    let file_name = text_member(members, "file_name")?;
    let format = text_member(members, "file_format")?;
    let file_format = SettingsFormat::from_name(format.as_str())?;
    Some(SettingsFile { app, content, file_name, file_format })
}

/// The members of a request to apply a settings file.
pub open spec fn apply_request_fields() -> Seq<&'static str> {
    seq!["file", "git_head_commit", "git_commit_msg"]
}

/// What a document holds where it is a request to apply a settings file, by the fixed schema.
pub open spec fn apply_request_of(doc: JsonDoc) -> Option<SettingsFileApplyRequestView> {
    match object_of(doc, apply_request_fields()) {
        Some(m) => match (
            lookup(m, "file"@),
            text_at(m, "git_head_commit"@),
            text_at(m, "git_commit_msg"@),
        ) {
            (Some(file_doc), Some(git_head_commit), Some(git_commit_msg)) => match settings_file_of(
                file_doc,
            ) {
                Some(file) => Some(
                    SettingsFileApplyRequestView { file, git_head_commit, git_commit_msg },
                ),
                None => None,
            },
            _ => None,
        },
        None => None,
    }
}

/// Computes `apply_request_of`.
pub fn apply_request_from_json(value: &JsonValue) -> (r: Option<SettingsFileApplyRequest>)
    ensures
        match r {
            Some(request) => apply_request_of(value@) == Some(request@),
            None => apply_request_of(value@) is None,
        },
{
    let mut allowed: Vec<&'static str> = Vec::new();
    allowed.push("file");
    allowed.push("git_head_commit");
    allowed.push("git_commit_msg");
    assert(allowed@ =~= apply_request_fields());
    let members = object_with(value, &allowed)?;
    let file_value = find(members, "file")?;
    let git_head_commit = text_member(members, "git_head_commit")?;
    let git_commit_msg = text_member(members, "git_commit_msg")?;
    let file = settings_file_from_json(file_value)?;
    Some(SettingsFileApplyRequest { file, git_head_commit, git_commit_msg })
}

/// The files of an array that holds settings files only.
pub open spec fn settings_files_of(doc: JsonDoc) -> Option<Seq<SettingsFileView>> {
    match doc {
        JsonDoc::Array(items) => if forall|i: int|
            0 <= i < items.len() ==> settings_file_of(#[trigger] items[i]) is Some {
            Some(Seq::new(items.len(), |i: int| settings_file_of(items[i])->0))
        } else {
            None
        },
        _ => None,
    }
}

/// Computes `settings_files_of`.
pub fn settings_files_from_json(value: &JsonValue) -> (r: Option<Vec<SettingsFile>>)
    ensures
        match r {
            Some(files) => settings_files_of(value@) == Some(files_view(files@)),
            None => settings_files_of(value@) is None,
        },
{
    let items = value.items()?;
    let mut files: Vec<SettingsFile> = Vec::new();
    let mut i: usize = 0;
    while i < items.len()
        invariant
            i <= items.len(),
            files@.len() == i,
            value@ == JsonDoc::Array(crate::json::items_view(items@)),
            forall|k: int| 0 <= k < i ==> settings_file_of(#[trigger] items@[k]@) == Some(files@[k]@),
        decreases items.len() - i,
    {
        match settings_file_from_json(&items[i]) {
            Some(file) => {
                files.push(file);
            },
            None => {
                assert(settings_file_of(value@->Array_0[i as int]) is None);
                return None;
            },
        }
        i = i + 1;
    }
    assert forall|k: int| 0 <= k < items.len() implies settings_file_of(
        #[trigger] value@->Array_0[k],
    ) is Some by {
        assert(settings_file_of(items@[k]@) is Some);
    }
    assert(settings_files_of(value@)->0 =~= files_view(files@)) by {
        assert forall|k: int| 0 <= k < items.len() implies settings_files_of(value@)->0[k]
            == files_view(files@)[k] by {
            assert(settings_file_of(items@[k]@) == Some(files@[k]@));
        }
    }
    Some(files)
}

/// The members of a request to revert a commit.
pub open spec fn revert_request_fields() -> Seq<&'static str> {
    seq!["app", "files", "git_commit"]
}

/// What a document holds where it is a request to revert a commit, by the fixed schema.
pub open spec fn revert_request_of(doc: JsonDoc) -> Option<SettingsFileRevertRequestView> {
    match object_of(doc, revert_request_fields()) {
        Some(m) => match (app_at(m, "app"@), lookup(m, "files"@), text_at(m, "git_commit"@)) {
            (Some(app), Some(files_doc), Some(git_commit)) => match settings_files_of(files_doc) {
                Some(files) => Some(SettingsFileRevertRequestView { app, files, git_commit }),
                None => None,
            },
            _ => None,
        },
        None => None,
    }
}

/// Computes `revert_request_of`.
pub fn revert_request_from_json(value: &JsonValue) -> (r: Option<SettingsFileRevertRequest>)
    ensures
        match r {
            Some(request) => revert_request_of(value@) == Some(request@),
            None => revert_request_of(value@) is None,
        },
{
    let mut allowed: Vec<&'static str> = Vec::new();
    allowed.push("app");
    allowed.push("files");
    allowed.push("git_commit");
    assert(allowed@ =~= revert_request_fields());
    let members = object_with(value, &allowed)?;
    let app = app_member(members, "app")?;
    let files_value = find(members, "files")?;
    let git_commit = text_member(members, "git_commit")?;
    let files = settings_files_from_json(files_value)?;
    Some(SettingsFileRevertRequest { app, files, git_commit })
}

/// The members of a request on unit files.
pub open spec fn unit_files_fields() -> Seq<&'static str> {
    seq!["files"]
}

/// What a document holds where it is a request on unit files, by the fixed schema.
pub open spec fn unit_files_of(doc: JsonDoc) -> Option<SystemdManagerUnitFilesRequestView> {
    match object_of(doc, unit_files_fields()) {
        Some(m) => match lookup(m, "files"@) {
            Some(files_doc) => match texts_of(files_doc) {
                Some(files) => Some(SystemdManagerUnitFilesRequestView { files }),
                None => None,
            },
            None => None,
        },
        None => None,
    }
}

/// Computes `unit_files_of`.
pub fn unit_files_from_json(value: &JsonValue) -> (r: Option<SystemdManagerUnitFilesRequest>)
    ensures
        match r {
            Some(request) => unit_files_of(value@) == Some(request@),
            None => unit_files_of(value@) is None,
        },
{
    let mut allowed: Vec<&'static str> = Vec::new();
    allowed.push("files");
    assert(allowed@ =~= unit_files_fields());
    let members = object_with(value, &allowed)?;
    let files_value = find(members, "files")?;
    let files = text_items(files_value)?;
    Some(SystemdManagerUnitFilesRequest { files })
}

/// The members of a request on one unit.
pub open spec fn unit_name_fields() -> Seq<&'static str> {
    seq!["unit_name"]
}

/// The unit that a request on one unit names.
pub open spec fn unit_name_of(doc: JsonDoc) -> Option<Seq<char>> {
    match object_of(doc, unit_name_fields()) {
        Some(m) => text_at(m, "unit_name"@),
        None => None,
    }
}

/// Computes `unit_name_of`.
pub fn unit_name_from_json(value: &JsonValue) -> (r: Option<String>)
    ensures
        match r {
            Some(name) => unit_name_of(value@) == Some(name@),
            None => unit_name_of(value@) is None,
        },
{
    let mut allowed: Vec<&'static str> = Vec::new();
    allowed.push("unit_name");
    assert(allowed@ =~= unit_name_fields());
    let members = object_with(value, &allowed)?;
    text_member(members, "unit_name")
}

/// The members of the settings of the camera.
pub open spec fn camera_fields() -> Seq<&'static str> {
    seq!["device_name", "label", "width", "height", "framerate"]
}

/// What a document holds where it is the settings of the camera, by the fixed schema.
pub open spec fn camera_of(doc: JsonDoc) -> Option<CameraSettingsView> {
    match object_of(doc, camera_fields()) {
        Some(m) => match (
            text_at(m, "device_name"@),
            text_at(m, "label"@),
            i32_at(m, "width"@),
            i32_at(m, "height"@),
            i32_at(m, "framerate"@),
        ) {
            (Some(device_name), Some(label), Some(width), Some(height), Some(framerate)) => Some(
                CameraSettingsView {
                    device_name,
                    label,
                    width: width as int,
                    height: height as int,
                    framerate: framerate as int,
                },
            ),
            _ => None,
        },
        None => None,
    }
}

/// Computes `camera_of`.
pub fn camera_from_json(value: &JsonValue) -> (r: Option<CameraSettings>)
    ensures
        match r {
            Some(camera) => camera_of(value@) == Some(camera@),
            None => camera_of(value@) is None,
        },
{
    let mut allowed: Vec<&'static str> = Vec::new();
    allowed.push("device_name");
    allowed.push("label");
    allowed.push("width");
    allowed.push("height");
    allowed.push("framerate");
    assert(allowed@ =~= camera_fields());
    let members = object_with(value, &allowed)?;
    let device_name = text_member(members, "device_name")?;
    let label = text_member(members, "label")?;
    let width = i32_member(members, "width")?;
    let height = i32_member(members, "height")?;
    let framerate = i32_member(members, "framerate")?;
    Some(CameraSettings { device_name, label, width, height, framerate })
}

/// The members of the settings of detection.
pub open spec fn detection_fields() -> Seq<&'static str> {
    seq![
        "nats_server_uri",
        "label_file",
        "model_file",
        "nms_threshold",
        "tensor_batch_size",
        "tensor_framerate",
        "tensor_height",
        "tensor_width",
        "overlay",
        "graphs",
    ]
}

/// What a document holds where it is the settings of detection, by the fixed schema.
pub open spec fn detection_of(doc: JsonDoc) -> Option<DetectionSettingsView> {
    match object_of(doc, detection_fields()) {
        Some(m) => match (
            text_at(m, "nats_server_uri"@),
            text_at(m, "label_file"@),
            text_at(m, "model_file"@),
            i32_at(m, "nms_threshold"@),
            i32_at(m, "tensor_batch_size"@),
        ) {
            (
                Some(nats_server_uri),
                Some(label_file),
                Some(model_file),
                Some(nms_threshold),
                Some(tensor_batch_size),
            ) => match (
                i32_at(m, "tensor_framerate"@),
                i32_at(m, "tensor_height"@),
                i32_at(m, "tensor_width"@),
                bool_at(m, "overlay"@),
                bool_at(m, "graphs"@),
            ) {
                (
                    Some(tensor_framerate),
                    Some(tensor_height),
                    Some(tensor_width),
                    Some(overlay),
                    Some(graphs),
                ) => Some(
                    DetectionSettingsView {
                        nats_server_uri,
                        label_file,
                        model_file,
                        nms_threshold: nms_threshold as int,
                        tensor_batch_size: tensor_batch_size as int,
                        tensor_framerate: tensor_framerate as int,
                        tensor_height: tensor_height as int,
                        tensor_width: tensor_width as int,
                        overlay,
                        graphs,
                    },
                ),
                _ => None,
            },
            _ => None,
        },
        None => None,
    }
}

/// Computes `detection_of`.
pub fn detection_from_json(value: &JsonValue) -> (r: Option<DetectionSettings>)
    ensures
        match r {
            Some(detection) => detection_of(value@) == Some(detection@),
            None => detection_of(value@) is None,
        },
{
    let mut allowed: Vec<&'static str> = Vec::new();
    allowed.push("nats_server_uri");
    allowed.push("label_file");
    allowed.push("model_file");
    allowed.push("nms_threshold");
    allowed.push("tensor_batch_size");
    allowed.push("tensor_framerate");
    allowed.push("tensor_height");
    allowed.push("tensor_width");
    allowed.push("overlay");
    allowed.push("graphs");
    assert(allowed@ =~= detection_fields());
    let members = object_with(value, &allowed)?;
    let nats_server_uri = text_member(members, "nats_server_uri")?;
    let label_file = text_member(members, "label_file")?;
    let model_file = text_member(members, "model_file")?;
    let nms_threshold = i32_member(members, "nms_threshold")?;
    let tensor_batch_size = i32_member(members, "tensor_batch_size")?;
    let tensor_framerate = i32_member(members, "tensor_framerate")?;
    let tensor_height = i32_member(members, "tensor_height")?;
    let tensor_width = i32_member(members, "tensor_width")?;
    let overlay = bool_member(members, "overlay")?;
    let graphs = bool_member(members, "graphs")?;
    Some(
        DetectionSettings {
            nats_server_uri,
            label_file,
            model_file,
            nms_threshold,
            tensor_batch_size,
            tensor_framerate,
            tensor_height,
            tensor_width,
            overlay,
            graphs,
        },
    )
}

/// The members of the settings of the HLS branch.
pub open spec fn hls_fields() -> Seq<&'static str> {
    seq!["segments", "playlist", "playlist_root", "enabled"]
}

/// What a document holds where it is the settings of the HLS branch, by the fixed schema.
pub open spec fn hls_of(doc: JsonDoc) -> Option<HlsSettingsView> {
    match object_of(doc, hls_fields()) {
        Some(m) => match (
            text_at(m, "segments"@),
            text_at(m, "playlist"@),
            text_at(m, "playlist_root"@),
            bool_at(m, "enabled"@),
        ) {
            (Some(segments), Some(playlist), Some(playlist_root), Some(enabled)) => Some(
                HlsSettingsView { segments, playlist, playlist_root, enabled },
            ),
            _ => None,
        },
        None => None,
    }
}

/// Computes `hls_of`.
pub fn hls_from_json(value: &JsonValue) -> (r: Option<HlsSettings>)
    ensures
        match r {
            Some(hls) => hls_of(value@) == Some(hls@),
            None => hls_of(value@) is None,
        },
{
    let mut allowed: Vec<&'static str> = Vec::new();
    allowed.push("segments");
    allowed.push("playlist");
    allowed.push("playlist_root");
    allowed.push("enabled");
    assert(allowed@ =~= hls_fields());
    let members = object_with(value, &allowed)?;
    let segments = text_member(members, "segments")?;
    let playlist = text_member(members, "playlist")?;
    let playlist_root = text_member(members, "playlist_root")?;
    let enabled = bool_member(members, "enabled")?;
    Some(HlsSettings { segments, playlist, playlist_root, enabled })
}

/// The members of the settings of recordings.
pub open spec fn recording_fields() -> Seq<&'static str> {
    seq!["path", "auto_start", "cloud_sync"]
}

/// What a document holds where it is the settings of recordings, by the fixed schema.
pub open spec fn recording_of(doc: JsonDoc) -> Option<RecordingSettingsView> {
    match object_of(doc, recording_fields()) {
        Some(m) => match (
            text_at(m, "path"@),
            bool_at(m, "auto_start"@),
            bool_at(m, "cloud_sync"@),
        ) {
            (Some(path), Some(auto_start), Some(cloud_sync)) => Some(
                RecordingSettingsView { path, auto_start, cloud_sync },
            ),
            _ => None,
        },
        None => None,
    }
}

/// Computes `recording_of`.
pub fn recording_from_json(value: &JsonValue) -> (r: Option<RecordingSettings>)
    ensures
        match r {
            Some(recording) => recording_of(value@) == Some(recording@),
            None => recording_of(value@) is None,
        },
{
    let mut allowed: Vec<&'static str> = Vec::new();
    allowed.push("path");
    allowed.push("auto_start");
    allowed.push("cloud_sync");
    assert(allowed@ =~= recording_fields());
    let members = object_with(value, &allowed)?;
    let path = text_member(members, "path")?;
    let auto_start = bool_member(members, "auto_start")?;
    let cloud_sync = bool_member(members, "cloud_sync")?;
    Some(RecordingSettings { path, auto_start, cloud_sync })
}

/// The members of the settings of RTP.
pub open spec fn rtp_fields() -> Seq<&'static str> {
    seq!["video_udp_port", "overlay_udp_port"]
}

/// What a document holds where it is the settings of RTP, by the fixed schema.
pub open spec fn rtp_of(doc: JsonDoc) -> Option<RtpSettings> {
    match object_of(doc, rtp_fields()) {
        Some(m) => match (i32_at(m, "video_udp_port"@), i32_at(m, "overlay_udp_port"@)) {
            (Some(video_udp_port), Some(overlay_udp_port)) => Some(
                RtpSettings { video_udp_port, overlay_udp_port },
            ),
            _ => None,
        },
        None => None,
    }
}

/// Computes `rtp_of`.
pub fn rtp_from_json(value: &JsonValue) -> (r: Option<RtpSettings>)
    ensures
        r == rtp_of(value@),
{
    let mut allowed: Vec<&'static str> = Vec::new();
    allowed.push("video_udp_port");
    allowed.push("overlay_udp_port");
    assert(allowed@ =~= rtp_fields());
    let members = object_with(value, &allowed)?;
    let video_udp_port = i32_member(members, "video_udp_port")?;
    let overlay_udp_port = i32_member(members, "overlay_udp_port")?;
    Some(RtpSettings { video_udp_port, overlay_udp_port })
}

/// The members of the settings of the snapshot branch.
pub open spec fn snapshot_fields() -> Seq<&'static str> {
    seq!["path", "enabled"]
}

/// What a document holds where it is the settings of the snapshot branch, by the fixed schema.
pub open spec fn snapshot_of(doc: JsonDoc) -> Option<SnapshotSettingsView> {
    match object_of(doc, snapshot_fields()) {
        Some(m) => match (text_at(m, "path"@), bool_at(m, "enabled"@)) {
            (Some(path), Some(enabled)) => Some(SnapshotSettingsView { path, enabled }),
            _ => None,
        },
        None => None,
    }
}

/// Computes `snapshot_of`.
pub fn snapshot_from_json(value: &JsonValue) -> (r: Option<SnapshotSettings>)
    ensures
        match r {
            Some(snapshot) => snapshot_of(value@) == Some(snapshot@),
            None => snapshot_of(value@) is None,
        },
{
    let mut allowed: Vec<&'static str> = Vec::new();
    allowed.push("path");
    allowed.push("enabled");
    assert(allowed@ =~= snapshot_fields());
    let members = object_with(value, &allowed)?;
    let path = text_member(members, "path")?;
    let enabled = bool_member(members, "enabled")?;
    Some(SnapshotSettings { path, enabled })
}

/// The members of the settings of the video stream.
pub open spec fn video_stream_fields() -> Seq<&'static str> {
    seq!["camera", "detection", "hls", "recording", "rtp", "snapshot"]
}

/// What a document holds where it is the settings of the video stream, by the fixed schema.
pub open spec fn video_stream_of(doc: JsonDoc) -> Option<VideoStreamSettingsView> {
    match object_of(doc, video_stream_fields()) {
        Some(m) => match (
            lookup(m, "camera"@),
            lookup(m, "detection"@),
            lookup(m, "hls"@),
            lookup(m, "recording"@),
            lookup(m, "rtp"@),
            lookup(m, "snapshot"@),
        ) {
            (Some(c), Some(d), Some(h), Some(rec), Some(rtp), Some(s)) => match (
                camera_of(c),
                detection_of(d),
                hls_of(h),
                recording_of(rec),
                rtp_of(rtp),
                snapshot_of(s),
            ) {
                (
                    Some(camera),
                    Some(detection),
                    Some(hls),
                    Some(recording),
                    Some(rtp),
                    Some(snapshot),
                ) => Some(
                    VideoStreamSettingsView { camera, detection, hls, recording, rtp, snapshot },
                ),
                _ => None,
            },
            _ => None,
        },
        None => None,
    }
}

/// Computes `video_stream_of`.
pub fn video_stream_from_json(value: &JsonValue) -> (r: Option<VideoStreamSettings>)
    ensures
        match r {
            Some(video) => video_stream_of(value@) == Some(video@),
            None => video_stream_of(value@) is None,
        },
{
    let mut allowed: Vec<&'static str> = Vec::new();
    allowed.push("camera");
    allowed.push("detection");
    allowed.push("hls");
    allowed.push("recording");
    allowed.push("rtp");
    allowed.push("snapshot");
    assert(allowed@ =~= video_stream_fields());
    let members = object_with(value, &allowed)?;
    let camera_value = find(members, "camera")?;
    let detection_value = find(members, "detection")?;
    let hls_value = find(members, "hls")?;
    let recording_value = find(members, "recording")?;
    let rtp_value = find(members, "rtp")?;
    let snapshot_value = find(members, "snapshot")?;
    let camera = camera_from_json(camera_value)?;
    let detection = detection_from_json(detection_value)?;
    let hls = hls_from_json(hls_value)?;
    let recording = recording_from_json(recording_value)?;
    let rtp = rtp_from_json(rtp_value)?;
    let snapshot = snapshot_from_json(snapshot_value)?;
    Some(VideoStreamSettings { camera, detection, hls, recording, rtp, snapshot })
}

} // verus!
