//! Settings of the camera stream and of the branches fed by it.
use vstd::prelude::*;

verus! {

/// The camera that feeds every branch.
#[derive(Debug, PartialEq, Eq)]
pub struct CameraSettings {
    pub device_name: String,
    pub label: String,
    pub width: i32,
    pub height: i32,
    pub framerate: i32,
}

pub struct CameraSettingsView {
    pub device_name: Seq<char>,
    pub label: Seq<char>,
    pub width: int,
    pub height: int,
    pub framerate: int,
}

impl View for CameraSettings {
    type V = CameraSettingsView;

    open spec fn view(&self) -> CameraSettingsView {
        CameraSettingsView {
            device_name: self.device_name@,
            label: self.label@,
            width: self.width as int,
            height: self.height as int,
            framerate: self.framerate as int,
        }
    }
}

/// The inference branch and what hangs off it.
#[derive(Debug, PartialEq, Eq)]
pub struct DetectionSettings {
    pub nats_server_uri: String,
    pub label_file: String,
    pub model_file: String,
    /// Hundredths: 50 stands for a threshold of one half.
    pub nms_threshold: i32,
    pub tensor_batch_size: i32,
    pub tensor_framerate: i32,
    pub tensor_height: i32,
    pub tensor_width: i32,
    pub overlay: bool,
    pub graphs: bool,
}

pub struct DetectionSettingsView {
    pub nats_server_uri: Seq<char>,
    pub label_file: Seq<char>,
    pub model_file: Seq<char>,
    pub nms_threshold: int,
    pub tensor_batch_size: int,
    pub tensor_framerate: int,
    pub tensor_height: int,
    pub tensor_width: int,
    pub overlay: bool,
    pub graphs: bool,
}

impl View for DetectionSettings {
    type V = DetectionSettingsView;

    open spec fn view(&self) -> DetectionSettingsView {
        DetectionSettingsView {
            nats_server_uri: self.nats_server_uri@,
            label_file: self.label_file@,
            model_file: self.model_file@,
            nms_threshold: self.nms_threshold as int,
            tensor_batch_size: self.tensor_batch_size as int,
            tensor_framerate: self.tensor_framerate as int,
            tensor_height: self.tensor_height as int,
            tensor_width: self.tensor_width as int,
            overlay: self.overlay,
            graphs: self.graphs,
        }
    }
}

/// The HLS branch, optional.
#[derive(Debug, PartialEq, Eq)]
pub struct HlsSettings {
    pub segments: String,
    pub playlist: String,
    pub playlist_root: String,
    pub enabled: bool,
}

pub struct HlsSettingsView {
    pub segments: Seq<char>,
    pub playlist: Seq<char>,
    pub playlist_root: Seq<char>,
    pub enabled: bool,
}

impl View for HlsSettings {
    type V = HlsSettingsView;

    open spec fn view(&self) -> HlsSettingsView {
        HlsSettingsView {
            segments: self.segments@,
            playlist: self.playlist@,
            playlist_root: self.playlist_root@,
            enabled: self.enabled,
        }
    }
}

/// Where recordings go and whether they are uploaded once captured.
#[derive(Debug, PartialEq, Eq)]
pub struct RecordingSettings {
    pub path: String,
    pub auto_start: bool,
    pub cloud_sync: bool,
}

pub struct RecordingSettingsView {
    pub path: Seq<char>,
    pub auto_start: bool,
    pub cloud_sync: bool,
}

impl View for RecordingSettings {
    type V = RecordingSettingsView;

    open spec fn view(&self) -> RecordingSettingsView {
        RecordingSettingsView {
            path: self.path@,
            auto_start: self.auto_start,
            cloud_sync: self.cloud_sync,
        }
    }
}

/// UDP ports of the plain and of the overlaid video.
#[derive(Clone, Copy, PartialEq, Eq, Structural, Debug)]
pub struct RtpSettings {
    pub video_udp_port: i32,
    pub overlay_udp_port: i32,
}

/// The snapshot branch, optional.
#[derive(Debug, PartialEq, Eq)]
pub struct SnapshotSettings {
    pub path: String,
    pub enabled: bool,
}

pub struct SnapshotSettingsView {
    pub path: Seq<char>,
    pub enabled: bool,
}

impl View for SnapshotSettings {
    type V = SnapshotSettingsView;

    open spec fn view(&self) -> SnapshotSettingsView {
        SnapshotSettingsView { path: self.path@, enabled: self.enabled }
    }
}

/// Everything the media pipelines are built from.
#[derive(Debug, PartialEq, Eq)]
pub struct VideoStreamSettings {
    pub camera: CameraSettings,
    pub detection: DetectionSettings,
    pub hls: HlsSettings,
    pub recording: RecordingSettings,
    pub rtp: RtpSettings,
    pub snapshot: SnapshotSettings,
}

pub struct VideoStreamSettingsView {
    pub camera: CameraSettingsView,
    pub detection: DetectionSettingsView,
    pub hls: HlsSettingsView,
    pub recording: RecordingSettingsView,
    pub rtp: RtpSettings,
    pub snapshot: SnapshotSettingsView,
}

impl View for VideoStreamSettings {
    type V = VideoStreamSettingsView;

    open spec fn view(&self) -> VideoStreamSettingsView {
        VideoStreamSettingsView {
            camera: self.camera@,
            detection: self.detection@,
            hls: self.hls@,
            recording: self.recording@,
            rtp: self.rtp,
            snapshot: self.snapshot@,
        }
    }
}

impl Clone for CameraSettings {
    fn clone(&self) -> (r: Self)
        ensures
            r == *self,
    {
        CameraSettings {
            device_name: self.device_name.clone(),
            label: self.label.clone(),
            width: self.width,
            height: self.height,
            framerate: self.framerate,
        }
    }
}

impl Clone for DetectionSettings {
    fn clone(&self) -> (r: Self)
        ensures
            r == *self,
    {
        DetectionSettings {
            nats_server_uri: self.nats_server_uri.clone(),
            label_file: self.label_file.clone(),
            model_file: self.model_file.clone(),
            nms_threshold: self.nms_threshold,
            tensor_batch_size: self.tensor_batch_size,
            tensor_framerate: self.tensor_framerate,
            tensor_height: self.tensor_height,
            tensor_width: self.tensor_width,
            overlay: self.overlay,
            graphs: self.graphs,
        }
    }
}

impl Clone for HlsSettings {
    fn clone(&self) -> (r: Self)
        ensures
            r == *self,
    {
        HlsSettings {
            segments: self.segments.clone(),
            playlist: self.playlist.clone(),
            playlist_root: self.playlist_root.clone(),
            enabled: self.enabled,
        }
    }
}

impl Clone for RecordingSettings {
    fn clone(&self) -> (r: Self)
        ensures
            r == *self,
    {
        RecordingSettings {
            path: self.path.clone(),
            auto_start: self.auto_start,
            cloud_sync: self.cloud_sync,
        }
    }
}

impl Clone for SnapshotSettings {
    fn clone(&self) -> (r: Self)
        ensures
            r == *self,
    {
        SnapshotSettings { path: self.path.clone(), enabled: self.enabled }
    }
}

impl Clone for VideoStreamSettings {
    fn clone(&self) -> (r: Self)
        ensures
            r == *self,
    {
        VideoStreamSettings {
            camera: self.camera.clone(),
            detection: self.detection.clone(),
            hls: self.hls.clone(),
            recording: self.recording.clone(),
            rtp: self.rtp,
            snapshot: self.snapshot.clone(),
        }
    }
}

} // verus!
