//! The device's settings: where things lie, who commits, which units are
//! managed, and the values that hold until something else is configured.
use crate::text::{join_path, joined_path};
use crate::vcs::{SettingsApp, SettingsFormat};
use crate::video::{
    CameraSettings, CameraSettingsView, DetectionSettings, DetectionSettingsView, HlsSettings,
    HlsSettingsView, RecordingSettings, RecordingSettingsView, RtpSettings, SnapshotSettings,
    SnapshotSettingsView, VideoStreamSettings, VideoStreamSettingsView,
};
use vstd::prelude::*;

verus! {

/// How the message bus is reached.
#[derive(Debug, PartialEq, Eq)]
pub struct NatsConfig {
    pub uri: String,
    pub require_tls: bool,
}

impl Default for NatsConfig {
    fn default() -> (r: Self)
        ensures
            r.uri@ == "nats://localhost:4222"@,
            !r.require_tls,
    {
        NatsConfig { uri: "nats://localhost:4222".to_owned(), require_tls: false }
    }
}

/// Where the cloud is proxied on this host.
#[derive(Debug, PartialEq, Eq)]
pub struct PrintNannyCloudProxy {
    pub hostname: String,
    pub base_path: String,
    pub url: String,
}

/// The address of the proxy on a host.
pub open spec fn proxy_url(hostname: Seq<char>) -> Seq<char> {
    "http://"@ + hostname + "/printnanny-cloud"@
}

impl PrintNannyCloudProxy {
    /// The proxy on the host of this name.
    pub fn for_host(hostname: String) -> (r: Self)
        ensures
            r.hostname@ == hostname@,
            r.base_path@ == "/printnanny-cloud"@,
            r.url@ == proxy_url(hostname@),
    {
        let mut url = "http://".to_owned();
        url.append(hostname.as_str());
        url.append("/printnanny-cloud");
        PrintNannyCloudProxy { hostname, base_path: "/printnanny-cloud".to_owned(), url }
    }

    /// The proxy on the host of this name, or on `localhost` where the
    /// host's name is not known.
    pub fn for_host_or_local(hostname: Option<String>) -> (r: Self)
        ensures
            r.hostname@ == match hostname {
                Some(h) => h@,
                None => "localhost"@,
            },
            r.base_path@ == "/printnanny-cloud"@,
            r.url@ == proxy_url(r.hostname@),
    {
        match hostname {
            Some(h) => Self::for_host(h),
            None => Self::for_host("localhost".to_owned()),
        }
    }
}

/// Where video comes from.
#[derive(Clone, Copy, PartialEq, Eq, Structural, Debug)]
pub enum VideoSrcType {
    File,
    Device,
    Uri,
}

/// A unit that the device manages, and whether it is to be enabled.
#[derive(Debug, PartialEq, Eq)]
pub struct SystemdUnit {
    pub unit: String,
    pub enabled: bool,
}

/// The name under which a unit is managed, the unit, and whether it is
/// enabled.
pub struct ManagedUnitView {
    pub name: Seq<char>,
    pub unit: Seq<char>,
    pub enabled: bool,
}

/// The units that are managed unless something else is configured.
pub open spec fn default_units() -> Seq<ManagedUnitView> {
    seq![
        ManagedUnitView {
            name: "printnanny-vision.service"@,
            unit: "printnanny-vision.service"@,
            enabled: true,
        },
        ManagedUnitView { name: "octoprint.service"@, unit: "octoprint.service"@, enabled: true },
        ManagedUnitView { name: "mainsail.service"@, unit: "mansail.service"@, enabled: false },
    ]
}

/// The view of one managed unit.
pub open spec fn managed_unit_view(entry: (String, SystemdUnit)) -> ManagedUnitView {
    ManagedUnitView { name: entry.0@, unit: entry.1.unit@, enabled: entry.1.enabled }
}

/// Lists the units that are managed unless something else is configured,
/// each under its name.
pub fn default_systemd_units() -> (units: Vec<(String, SystemdUnit)>)
    ensures
        units@.map_values(|e: (String, SystemdUnit)| managed_unit_view(e)) == default_units(),
{
    let mut units: Vec<(String, SystemdUnit)> = Vec::new();
    units.push(
        (
            "printnanny-vision.service".to_owned(),
            SystemdUnit { unit: "printnanny-vision.service".to_owned(), enabled: true },
        ),
    );
    units.push(
        (
            "octoprint.service".to_owned(),
            SystemdUnit { unit: "octoprint.service".to_owned(), enabled: true },
        ),
    );
    units.push(
        (
            "mainsail.service".to_owned(),
            SystemdUnit { unit: "mansail.service".to_owned(), enabled: false },
        ),
    );
    assert(units@.map_values(|e: (String, SystemdUnit)| managed_unit_view(e)) =~= default_units());
    units
}

/// Who commits to the settings repository, and where it comes from.
#[derive(Debug, PartialEq, Eq)]
pub struct GitSettings {
    pub remote: String,
    pub email: String,
    pub name: String,
    pub default_branch: String,
}

/// Where the settings repository is cloned from.
pub const DEFAULT_PRINTNANNY_SETTINGS_GIT_REMOTE: &'static str =
    "https://github.com/bitsy-ai/printnanny-settings.git";

/// The address under which the device commits.
pub const DEFAULT_PRINTNANNY_SETTINGS_GIT_EMAIL: &'static str = "robots@printnanny.ai";

/// The name under which the device commits.
pub const DEFAULT_PRINTNANNY_SETTINGS_GIT_NAME: &'static str = "PrintNanny";

impl Default for GitSettings {
    fn default() -> (r: Self)
        ensures
            r.remote@ == DEFAULT_PRINTNANNY_SETTINGS_GIT_REMOTE@,
            r.email@ == DEFAULT_PRINTNANNY_SETTINGS_GIT_EMAIL@,
            r.name@ == DEFAULT_PRINTNANNY_SETTINGS_GIT_NAME@,
            r.default_branch@ == "main"@,
    {
        GitSettings {
            remote: DEFAULT_PRINTNANNY_SETTINGS_GIT_REMOTE.to_owned(),
            email: DEFAULT_PRINTNANNY_SETTINGS_GIT_EMAIL.to_owned(),
            name: DEFAULT_PRINTNANNY_SETTINGS_GIT_NAME.to_owned(),
            default_branch: "main".to_owned(),
        }
    }
}

/// One entry of the repository's own configuration.
#[derive(Debug, PartialEq, Eq)]
pub struct GitConfigEntry {
    pub key: &'static str,
    pub value: String,
}

impl GitSettings {
    /// What the repository's own configuration has to hold so that commits
    /// bear this identity: the e-mail address, the name, and the branch
    /// that a new repository starts on.
    pub fn init_local_git_config(&self) -> (entries: Vec<GitConfigEntry>)
        ensures
            entries@.len() == 3,
            entries@[0].key@ == "user.email"@ && entries@[0].value@ == self.email@,
            entries@[1].key@ == "user.name"@ && entries@[1].value@ == self.name@,
            entries@[2].key@ == "init.defaultBranch"@ && entries@[2].value@ == self.default_branch@,
    {
        let mut entries: Vec<GitConfigEntry> = Vec::new();
        entries.push(GitConfigEntry { key: "user.email", value: self.email.clone() });
        entries.push(GitConfigEntry { key: "user.name", value: self.name.clone() });
        entries.push(
            GitConfigEntry { key: "init.defaultBranch", value: self.default_branch.clone() },
        );
        entries
    }
}

/// Where the device keeps its files.
#[derive(Debug, PartialEq, Eq)]
pub struct PrintNannyPaths {
    pub state_dir: String,
    pub settings_dir: String,
    pub log_dir: String,
    pub issue_txt: String,
    pub os_release: String,
}

/// Where settings are read from unless the environment names a file.
pub const DEFAULT_PRINTNANNY_SETTINGS_FILE: &'static str =
    "/var/lib/printnanny/PrintNannySettings.toml";

/// The name of the file that settings are saved to.
pub const PRINTNANNY_SETTINGS_FILENAME: &'static str = "PrintNannySettings.toml";

impl Default for PrintNannyPaths {
    fn default() -> (r: Self)
        ensures
            r.state_dir@ == "/var/lib/printnanny"@,
            r.settings_dir@ == "/home/printnanny/.config/printnanny/settings"@,
            r.log_dir@ == "/var/log/printnanny"@,
            r.issue_txt@ == "/etc/issue"@,
            r.os_release@ == "/etc/os-release"@,
    {
        PrintNannyPaths {
            state_dir: "/var/lib/printnanny".to_owned(),
            settings_dir: "/home/printnanny/.config/printnanny/settings".to_owned(),
            log_dir: "/var/log/printnanny".to_owned(),
            issue_txt: "/etc/issue".to_owned(),
            os_release: "/etc/os-release".to_owned(),
        }
    }
}

impl PrintNannyPaths {
    /// Where data lies.
    pub fn data(&self) -> (path: String)
        ensures
            path@ == joined_path(self.state_dir@, "data"@),
    {
        join_path(self.state_dir.as_str(), "data")
    }

    /// Where fragments of configuration lie that the device itself writes.
    pub fn lib_confd(&self) -> (path: String)
        ensures
            path@ == joined_path(self.state_dir@, "printnanny.d"@),
    {
        join_path(self.state_dir.as_str(), "printnanny.d")
    }

    /// Where settings lie that the user edits.
    pub fn user_confd(&self) -> (path: String)
        ensures
            path@ == self.settings_dir@,
    {
        self.settings_dir.clone()
    }

    /// The file that settings are saved to.
    pub fn settings_file(&self) -> (path: String)
        ensures
            path@ == joined_path(self.state_dir@, PRINTNANNY_SETTINGS_FILENAME@),
    {
        join_path(self.state_dir.as_str(), PRINTNANNY_SETTINGS_FILENAME)
    }

    /// The file of a domain in the settings repository.
    pub fn domain_file(&self, app: SettingsApp) -> (path: String)
        ensures
            path@ == joined_path(self.settings_dir@, app.spec_file()),
    {
        join_path(self.settings_dir.as_str(), app.get_settings_file())
    }
}

/// Whether a component is in use.
#[derive(Clone, Copy, PartialEq, Eq, Structural, Debug)]
pub struct ComponentSettings {
    pub enabled: bool,
}

/// All settings of the device.
#[derive(Debug, PartialEq, Eq)]
pub struct PrintNannySettings {
    pub video_stream: VideoStreamSettings,
    pub git: GitSettings,
    pub paths: PrintNannyPaths,
    pub klipper: ComponentSettings,
    pub mainsail: ComponentSettings,
    pub moonraker: ComponentSettings,
    pub octoprint: ComponentSettings,
}

/// Why settings could not be had.
#[derive(Debug, PartialEq, Eq)]
pub enum PrintNannySettingsError {
    /// The file that the environment names does not exist.
    ConfigFileNotFound { path: String },
}

/// The video stream unless something else is configured.
pub open spec fn default_video_view() -> VideoStreamSettingsView {
    VideoStreamSettingsView {
        camera: CameraSettingsView {
            device_name: "/base/soc/i2c0mux/i2c@1/imx219@10"@,
            label: "Raspberry Pi imx219"@,
            width: 640,
            height: 480,
            framerate: 16,
        },
        detection: DetectionSettingsView {
            nats_server_uri: "nats://127.0.0.1:4223"@,
            label_file: "/usr/share/printnanny/model/labels.txt"@,
            model_file: "/usr/share/printnanny/model/model.tflite"@,
            nms_threshold: 66,
            tensor_batch_size: 40,
            tensor_framerate: 2,
            tensor_height: 320,
            tensor_width: 320,
            overlay: true,
            graphs: true,
        },
        hls: HlsSettingsView {
            segments: "/var/run/printnanny-hls/segment%05d.ts"@,
            playlist: "/var/run/printnanny-hls/playlist.m3u8"@,
            playlist_root: "/printnanny-hls/"@,
            enabled: true,
        },
        recording: RecordingSettingsView {
            path: "/home/printnanny/.local/share/printnanny/video"@,
            auto_start: false,
            cloud_sync: true,
        },
        rtp: RtpSettings { video_udp_port: 20001, overlay_udp_port: 20002 },
        snapshot: SnapshotSettingsView {
            path: "/var/run/printnanny-snapshot/snapshot-%d.jpg"@,
            enabled: true,
        },
    }
}

/// Computes `default_video_view`.
pub fn default_video_stream() -> (video: VideoStreamSettings)
    ensures
        video@ == default_video_view(),
{
    VideoStreamSettings {
        camera: CameraSettings {
            device_name: "/base/soc/i2c0mux/i2c@1/imx219@10".to_owned(),
            label: "Raspberry Pi imx219".to_owned(),
            width: 640,
            height: 480,
            framerate: 16,
        },
        detection: DetectionSettings {
            nats_server_uri: "nats://127.0.0.1:4223".to_owned(),
            label_file: "/usr/share/printnanny/model/labels.txt".to_owned(),
            model_file: "/usr/share/printnanny/model/model.tflite".to_owned(),
            nms_threshold: 66,
            tensor_batch_size: 40,
            tensor_framerate: 2,
            tensor_height: 320,
            tensor_width: 320,
            overlay: true,
            graphs: true,
        },
        hls: HlsSettings {
            segments: "/var/run/printnanny-hls/segment%05d.ts".to_owned(),
            playlist: "/var/run/printnanny-hls/playlist.m3u8".to_owned(),
            playlist_root: "/printnanny-hls/".to_owned(),
            enabled: true,
        },
        recording: RecordingSettings {
            path: "/home/printnanny/.local/share/printnanny/video".to_owned(),
            auto_start: false,
            cloud_sync: true,
        },
        rtp: RtpSettings { video_udp_port: 20001, overlay_udp_port: 20002 },
        snapshot: SnapshotSettings {
            path: "/var/run/printnanny-snapshot/snapshot-%d.jpg".to_owned(),
            enabled: true,
        },
    }
}

impl Default for PrintNannySettings {
    /// The settings of a device on which nothing is configured: the print
    /// server is in use, the other components are not.
    fn default() -> (r: Self)
        ensures
            r.video_stream@ == default_video_view(),
            r.git.remote@ == DEFAULT_PRINTNANNY_SETTINGS_GIT_REMOTE@,
            r.git.email@ == DEFAULT_PRINTNANNY_SETTINGS_GIT_EMAIL@,
            r.git.name@ == DEFAULT_PRINTNANNY_SETTINGS_GIT_NAME@,
            r.git.default_branch@ == "main"@,
            r.paths.state_dir@ == "/var/lib/printnanny"@,
            r.paths.settings_dir@ == "/home/printnanny/.config/printnanny/settings"@,
            r.paths.log_dir@ == "/var/log/printnanny"@,
            r.paths.issue_txt@ == "/etc/issue"@,
            r.paths.os_release@ == "/etc/os-release"@,
            r.octoprint.enabled,
            !r.klipper.enabled,
            !r.mainsail.enabled,
            !r.moonraker.enabled,
    {
        PrintNannySettings {
            video_stream: default_video_stream(),
            git: GitSettings::default(),
            paths: PrintNannyPaths::default(),
            klipper: ComponentSettings { enabled: false },
            mainsail: ComponentSettings { enabled: false },
            moonraker: ComponentSettings { enabled: false },
            octoprint: ComponentSettings { enabled: true },
        }
    }
}

/// The address of the dashboard on a host.
pub open spec fn dashboard_text(hostname: Seq<char>) -> Seq<char> {
    "http://"@ + hostname + ".local/"@
}

impl PrintNannySettings {
    /// The address of the dashboard on the host of this name, or on
    /// `printnanny` where the host's name is not known.
    pub fn dashboard_url(&self, hostname: Option<&str>) -> (url: String)
        ensures
            url@ == dashboard_text(
                match hostname {
                    Some(h) => h@,
                    None => "printnanny"@,
                },
            ),
    {
        let host = match hostname {
            Some(h) => h,
            None => "printnanny",
        };
        let mut url = "http://".to_owned();
        url.append(host);
        url.append(".local/");
        url
    }

    /// The file of the device's own domain in the settings repository.
    pub fn get_settings_file(&self) -> (path: String)
        ensures
            path@ == joined_path(self.paths.settings_dir@, "printnanny/printnanny.toml"@),
    {
        join_path(self.paths.settings_dir.as_str(), "printnanny/printnanny.toml")
    }

    /// The format of the device's own domain.
    pub fn get_settings_format(&self) -> (format: SettingsFormat)
        ensures
            format == SettingsFormat::Toml,
    {
        SettingsFormat::Toml
    }

    /// The files that a factory reset removes, in the order in which it
    /// removes them.
    pub fn try_factory_reset(&self) -> (files: Vec<String>)
        ensures
            files@.len() == 2,
            files@[0]@ == joined_path(
                joined_path(self.paths.state_dir@, "printnanny.d"@),
                "cloud.json"@,
            ),
            files@[1]@ == joined_path(
                joined_path(self.paths.state_dir@, "printnanny.d"@),
                "systemd_units.json"@,
            ),
    {
        let confd = self.paths.lib_confd();
        let mut files: Vec<String> = Vec::new();
        files.push(join_path(confd.as_str(), "cloud.json"));
        files.push(join_path(confd.as_str(), "systemd_units.json"));
        files
    }

    /// Judges the settings file that the environment names: a file that is
    /// named has to exist; none need be named.
    pub fn check_file_from_env_var(value: Option<String>, exists: bool) -> (r: Result<
        (),
        PrintNannySettingsError,
    >)
        ensures
            match value {
                Some(path) => if exists {
                    r is Ok
                } else {
                    r matches Err(PrintNannySettingsError::ConfigFileNotFound { path: p }) && p@
                        == path@
                },
                None => r is Ok,
            },
    {
        match value {
            Some(path) => {
                if exists {
                    Ok(())
                } else {
                    Err(PrintNannySettingsError::ConfigFileNotFound { path })
                }
            },
            None => Ok(()),
        }
    }
}

/// How the cloud's API is reached.
#[derive(Debug, PartialEq, Eq)]
pub struct PrintNannyApiConfig {
    pub base_path: String,
    pub bearer_access_token: Option<String>,
}

} // verus!
