//! The media pipelines: how each stage is described to the pipeline server,
//! in which order the stages are created and started, and what a failed
//! step means.
use crate::text::{decimal, decimal_digits, digit, digit_of, push_decimal, push_digits};
use crate::video::{
    CameraSettings, CameraSettingsView, DetectionSettingsView, VideoStreamSettings,
    VideoStreamSettingsView,
};
use vstd::prelude::*;

verus! {

/// One stage of the media graph. A stage without `upstream` is a source; any
/// other listens to the output of the stage that `upstream` names.
#[derive(Debug, PartialEq, Eq)]
pub struct PipelineNode {
    pub name: String,
    pub upstream: Option<String>,
    pub description: String,
}

pub struct PipelineNodeView {
    pub name: Seq<char>,
    pub upstream: Option<Seq<char>>,
    pub description: Seq<char>,
}

impl View for PipelineNode {
    type V = PipelineNodeView;

    open spec fn view(&self) -> PipelineNodeView {
        PipelineNodeView {
            name: self.name@,
            upstream: match self.upstream {
                Some(u) => Some(u@),
                None => None,
            },
            description: self.description@,
        }
    }
}

/// The views of a list of stages, in order.
pub open spec fn nodes_view(nodes: Seq<PipelineNode>) -> Seq<PipelineNodeView> {
    nodes.map_values(|n: PipelineNode| n@)
}

/// Where the pipeline server listens.
pub open spec fn uri_text(address: Seq<char>, port: int) -> Seq<char> {
    "http://"@ + address + ":"@ + decimal(port)
}

/// The name under which a stage reads from its upstream.
pub open spec fn src_name(pipeline_name: Seq<char>) -> Seq<char> {
    pipeline_name + "_src"@
}

/// The name under which a stage offers its output.
pub open spec fn sink_name(pipeline_name: Seq<char>) -> Seq<char> {
    pipeline_name + "_sink"@
}

/// How every listening stage begins: its own source, bound to the output of
/// `upstream`.
pub open spec fn listen_text(pipeline_name: Seq<char>, upstream: Seq<char>) -> Seq<char> {
    "interpipesrc name="@ + src_name(pipeline_name) + " listen-to="@ + sink_name(upstream)
        + " accept-events=false accept-eos-event=false is-live=true allow-renegotiation=false"@
}

/// The digits after the point of a count of hundredths below one hundred,
/// without trailing zeros; nothing at all for zero.
pub open spec fn fraction_text(r: int) -> Seq<char> {
    if r == 0 {
        Seq::empty()
    } else if r % 10 == 0 {
        seq!['.', digit(r / 10)]
    } else {
        seq!['.', digit(r / 10), digit(r % 10)]
    }
}

/// `n` hundredths written as a decimal fraction: 50 is `0.5`, 5 is `0.05`,
/// 100 is `1`, -125 is `-1.25`.
pub open spec fn hundredths(n: int) -> Seq<char> {
    if n < 0 {
        seq!['-'] + decimal_digits(((-n) / 100) as nat) + fraction_text((-n) % 100)
    } else {
        decimal_digits((n / 100) as nat) + fraction_text(n % 100)
    }
}

/// How the camera stage is described to the server.
pub open spec fn camera_description(pipeline_name: Seq<char>, camera: CameraSettingsView) -> Seq<
    char,
> {
    "libcamerasrc camera-name="@ + camera.device_name
        + " ! capsfilter caps=video/x-raw,width=(int)"@ + decimal(camera.width)
        + ",height=(int)"@ + decimal(camera.height) + ",framerate=(fraction)"@ + decimal(
        camera.framerate,
    ) + "/1 ! interpipesink name="@ + sink_name(pipeline_name) + " sync=false"@
}

/// How the snapshot branch is described to the server.
pub open spec fn snapshot_description(
    pipeline_name: Seq<char>,
    upstream: Seq<char>,
    location: Seq<char>,
) -> Seq<char> {
    listen_text(pipeline_name, upstream)
        + " num-buffers=2 leaky-type=2 ! v4l2jpegenc ! multifilesink max-files=2 location="@
        + location
}

/// How the H.264 encoder is described to the server.
pub open spec fn h264_description(pipeline_name: Seq<char>, upstream: Seq<char>, framerate: int) -> Seq<
    char,
> {
    listen_text(pipeline_name, upstream)
        + " ! v4l2convert ! v4l2h264enc min-force-key-unit-interval="@ + decimal(framerate)
        + " extra-controls=controls,repeat_sequence_header=1 ! h264parse ! capsfilter caps=video/x-h264,level=(string)3,profile=(string)main ! interpipesink name="@
        + sink_name(pipeline_name) + " sync=false"@
}

/// How the RTP branch is described to the server.
pub open spec fn rtp_description(pipeline_name: Seq<char>, upstream: Seq<char>, port: int) -> Seq<
    char,
> {
    listen_text(pipeline_name, upstream)
        + " ! rtph264pay config-interval=1 aggregate-mode=zero-latency pt=96 ! udpsink port="@
        + decimal(port)
}

/// How the HLS branch is described to the server.
pub open spec fn hls_description(
    pipeline_name: Seq<char>,
    upstream: Seq<char>,
    segments: Seq<char>,
    playlist: Seq<char>,
    playlist_root: Seq<char>,
) -> Seq<char> {
    listen_text(pipeline_name, upstream)
        + " ! hlssink2 paylist-length=8 max-files=10 target-duration=1 location="@ + segments
        + " playlist-location="@ + playlist + " playlist-root="@ + playlist_root
        + " send-keyframe-requests=false"@
}

/// How the inference branch is described to the server.
pub open spec fn inference_description(
    pipeline_name: Seq<char>,
    upstream: Seq<char>,
    tensor_width: int,
    tensor_height: int,
    model_file: Seq<char>,
) -> Seq<char> {
    listen_text(pipeline_name, upstream)
        + " num-buffers=2 leaky-type=2 ! videoconvert ! videoscale ! capsfilter caps=video/x-raw,format=RGB,width="@
        + decimal(tensor_width) + ",height="@ + decimal(tensor_height)
        + " ! tensor_converter ! tensor_transform mode=arithmetic option=typecast:uint8,add:0,div:1 ! capsfilter caps=other/tensors,format=static ! tensor-filter framework=tensorflow2-lite model="@
        + model_file + " ! interpipesink name="@ + sink_name(pipeline_name) + " sync=false"@
}

/// How the overlay of bounding boxes is described to the server.
pub open spec fn bounding_box_description(
    pipeline_name: Seq<char>,
    upstream: Seq<char>,
    camera: CameraSettingsView,
    detection: DetectionSettingsView,
    port: int,
) -> Seq<char> {
    listen_text(pipeline_name, upstream)
        + " ! tensor_decoder mode=bounding_boxes option1=mobilenet-ssd-postprocess option2="@
        + detection.label_file + " option3=0:1:2:3,"@ + decimal(detection.nms_threshold)
        + " option4="@ + decimal(camera.width) + ":"@ + decimal(camera.height) + " option5="@
        + decimal(detection.tensor_width) + ":"@ + decimal(detection.tensor_height)
        + " ! videoconvert ! v4l2h264enc output-io-mode=mmap capture-io-mode=mmap extra-controls=controls,repeat_sequence_header=1 ! h264parse ! capsfilter caps=video/x-h264,level=(string)3,profile=(string)main ! rtph264pay config-interval=1 aggregate-mode=zero-latency pt=96 ! udpsink port="@
        + decimal(port) + "\n            "@
}

/// How the dataframe branch is described to the server; the threshold is
/// given in hundredths and written as a fraction.
pub open spec fn df_description(
    pipeline_name: Seq<char>,
    upstream: Seq<char>,
    nms_threshold: int,
    nats_server_uri: Seq<char>,
) -> Seq<char> {
    listen_text(pipeline_name, upstream)
        + " ! tensor_decoder mode=custom-code option1=printnanny_bb_dataframe_decoder ! dataframe_agg filter-threshold="@
        + hundredths(nms_threshold) + " output-type=json |\n            ! nats_sink nats-address="@
        + nats_server_uri
}

/// The branch that writes the encoded video into the directory of one
/// recording, in pieces. Unlike the other branches it takes the end of the
/// stream from its upstream, so that the last piece is closed properly.
pub open spec fn recording_description(
    pipeline_name: Seq<char>,
    upstream: Seq<char>,
    dir: Seq<char>,
) -> Seq<char> {
    "interpipesrc name="@ + src_name(pipeline_name) + " listen-to="@ + sink_name(upstream)
        + " accept-events=true accept-eos-event=true is-live=true allow-renegotiation=false ! h264parse ! splitmuxsink location="@
        + dir + "/%05d.mp4"@
}

/// Appends `n` hundredths as a decimal fraction.
pub fn push_hundredths(out: &mut String, n: i32)
    ensures
        final(out)@ == old(out)@ + hundredths(n as int),
{
    let wide: i64 = n as i64;
    let magnitude: u64 = if wide < 0 {
        (-wide) as u64
    } else {
        wide as u64
    };
    let mut text = String::new();
    if wide < 0 {
        text.push('-');
    }
    push_digits(&mut text, (magnitude / 100) as u128);
    let r: u64 = magnitude % 100;
    if r != 0 {
        text.push('.');
        text.push(digit_of((r / 10) as u128));
        if r % 10 != 0 {
            text.push(digit_of((r % 10) as u128));
        }
    }
    assert(text@ == hundredths(n as int));
    out.append(text.as_str());
}

/// Client-side handle on the pipeline server.
#[derive(Debug, PartialEq, Eq)]
pub struct PrintNannyPipelineFactory {
    pub address: String,
    pub port: i32,
    pub uri: String,
}

impl PrintNannyPipelineFactory {
    /// The text of `uri` is the one that `address` and `port` give.
    pub open spec fn well_formed(&self) -> bool {
        self.uri@ == uri_text(self.address@, self.port as int)
    }

    /// The handle on the server at `address` and `port`.
    pub fn new(address: String, port: i32) -> (factory: Self)
        ensures
            factory.address@ == address@,
            factory.port == port,
            factory.well_formed(),
    {
        let uri = Self::uri(address.as_str(), port);
        PrintNannyPipelineFactory { address, port, uri }
    }

    /// Computes `uri_text`.
    pub fn uri(address: &str, port: i32) -> (uri: String)
        ensures
            uri@ == uri_text(address@, port as int),
    {
        let mut uri = "http://".to_owned();
        uri.append(address);
        uri.append(":");
        push_decimal(&mut uri, port as i64);
        uri
    }

    /// Computes `src_name`.
    pub fn to_interpipesrc_name(pipeline_name: &str) -> (name: String)
        ensures
            name@ == src_name(pipeline_name@),
    {
        let mut name = pipeline_name.to_owned();
        name.append("_src");
        name
    }

    /// Computes `sink_name`.
    pub fn to_interpipesink_name(pipeline_name: &str) -> (name: String)
        ensures
            name@ == sink_name(pipeline_name@),
    {
        let mut name = pipeline_name.to_owned();
        name.append("_sink");
        name
    }

    fn listen(pipeline_name: &str, listen_to: &str) -> (text: String)
        ensures
            text@ == listen_text(pipeline_name@, listen_to@),
    {
        let interpipesrc = Self::to_interpipesrc_name(pipeline_name);
        let listen_to = Self::to_interpipesink_name(listen_to);
        let mut text = "interpipesrc name=".to_owned();
        text.append(interpipesrc.as_str());
        text.append(" listen-to=");
        text.append(listen_to.as_str());
        text.append(
            " accept-events=false accept-eos-event=false is-live=true allow-renegotiation=false",
        );
        text
    }

    fn node(pipeline_name: &str, listen_to: Option<&str>, description: String) -> (node:
        PipelineNode)
        ensures
            node@.name == pipeline_name@,
            node@.description == description@,
            match listen_to {
                Some(u) => node@.upstream == Some(u@),
                None => node@.upstream is None,
            },
    {
        let upstream = match listen_to {
            Some(u) => Some(u.to_owned()),
            None => None,
        };
        PipelineNode { name: pipeline_name.to_owned(), upstream, description }
    }

    /// The source stage: the camera, offered to the other stages.
    pub fn make_camera_pipeline(pipeline_name: &str, camera: &CameraSettings) -> (node:
        PipelineNode)
        ensures
            node@ == (PipelineNodeView {
                name: pipeline_name@,
                upstream: None,
                description: camera_description(pipeline_name@, camera@),
            }),
    {
        let interpipesink = Self::to_interpipesink_name(pipeline_name);
        let mut d = "libcamerasrc camera-name=".to_owned();
        d.append(camera.device_name.as_str());
        d.append(" ! capsfilter caps=video/x-raw,width=(int)");
        push_decimal(&mut d, camera.width as i64);
        d.append(",height=(int)");
        push_decimal(&mut d, camera.height as i64);
        d.append(",framerate=(fraction)");
        push_decimal(&mut d, camera.framerate as i64);
        d.append("/1 ! interpipesink name=");
        d.append(interpipesink.as_str());
        d.append(" sync=false");
        Self::node(pipeline_name, None, d)
    }

    /// Writes a JPEG of the camera's output to `filesink_location`, over and
    /// over.
    pub fn make_jpeg_snapshot_pipeline(
        pipeline_name: &str,
        listen_to: &str,
        filesink_location: &str,
    ) -> (node: PipelineNode)
        ensures
            node@ == (PipelineNodeView {
                name: pipeline_name@,
                upstream: Some(listen_to@),
                description: snapshot_description(
                    pipeline_name@,
                    listen_to@,
                    filesink_location@,
                ),
            }),
    {
        let mut d = Self::listen(pipeline_name, listen_to);
        d.append(
            " num-buffers=2 leaky-type=2 ! v4l2jpegenc ! multifilesink max-files=2 location=",
        );
        d.append(filesink_location);
        Self::node(pipeline_name, Some(listen_to), d)
    }

    /// Encodes the camera's output as H.264 and offers it to other stages.
    pub fn make_h264_pipeline(pipeline_name: &str, listen_to: &str, framerate: i32) -> (node:
        PipelineNode)
        ensures
            node@ == (PipelineNodeView {
                name: pipeline_name@,
                upstream: Some(listen_to@),
                description: h264_description(pipeline_name@, listen_to@, framerate as int),
            }),
    {
        let interpipesink = Self::to_interpipesink_name(pipeline_name);
        let mut d = Self::listen(pipeline_name, listen_to);
        d.append(" ! v4l2convert ! v4l2h264enc min-force-key-unit-interval=");
        push_decimal(&mut d, framerate as i64);
        d.append(
            " extra-controls=controls,repeat_sequence_header=1 ! h264parse ! capsfilter caps=video/x-h264,level=(string)3,profile=(string)main ! interpipesink name=",
        );
        d.append(interpipesink.as_str());
        d.append(" sync=false");
        Self::node(pipeline_name, Some(listen_to), d)
    }

    /// Sends the encoded video to a UDP port.
    pub fn make_rtp_pipeline(pipeline_name: &str, listen_to: &str, port: i32) -> (node:
        PipelineNode)
        ensures
            node@ == (PipelineNodeView {
                name: pipeline_name@,
                upstream: Some(listen_to@),
                description: rtp_description(pipeline_name@, listen_to@, port as int),
            }),
    {
        let mut d = Self::listen(pipeline_name, listen_to);
        d.append(
            " ! rtph264pay config-interval=1 aggregate-mode=zero-latency pt=96 ! udpsink port=",
        );
        push_decimal(&mut d, port as i64);
        Self::node(pipeline_name, Some(listen_to), d)
    }

    /// Cuts the encoded video into HLS segments and keeps the playlist.
    pub fn make_hls_pipeline(
        pipeline_name: &str,
        listen_to: &str,
        hls_segments_location: &str,
        hls_playlist_location: &str,
        hls_playlist_root: &str,
    ) -> (node: PipelineNode)
        ensures
            node@ == (PipelineNodeView {
                name: pipeline_name@,
                upstream: Some(listen_to@),
                description: hls_description(
                    pipeline_name@,
                    listen_to@,
                    hls_segments_location@,
                    hls_playlist_location@,
                    hls_playlist_root@,
                ),
            }),
    {
        let mut d = Self::listen(pipeline_name, listen_to);
        d.append(" ! hlssink2 paylist-length=8 max-files=10 target-duration=1 location=");
        d.append(hls_segments_location);
        d.append(" playlist-location=");
        d.append(hls_playlist_location);
        d.append(" playlist-root=");
        d.append(hls_playlist_root);
        d.append(" send-keyframe-requests=false");
        Self::node(pipeline_name, Some(listen_to), d)
    }

    /// Scales the camera's output to the model's input and runs the model.
    pub fn make_inference_pipeline(
        pipeline_name: &str,
        listen_to: &str,
        tensor_width: i32,
        tensor_height: i32,
        tflite_model_file: &str,
    ) -> (node: PipelineNode)
        ensures
            node@ == (PipelineNodeView {
                name: pipeline_name@,
                upstream: Some(listen_to@),
                description: inference_description(
                    pipeline_name@,
                    listen_to@,
                    tensor_width as int,
                    tensor_height as int,
                    tflite_model_file@,
                ),
            }),
    {
        let interpipesink = Self::to_interpipesink_name(pipeline_name);
        let mut d = Self::listen(pipeline_name, listen_to);
        d.append(
            " num-buffers=2 leaky-type=2 ! videoconvert ! videoscale ! capsfilter caps=video/x-raw,format=RGB,width=",
        );
        push_decimal(&mut d, tensor_width as i64);
        d.append(",height=");
        push_decimal(&mut d, tensor_height as i64);
        d.append(
            " ! tensor_converter ! tensor_transform mode=arithmetic option=typecast:uint8,add:0,div:1 ! capsfilter caps=other/tensors,format=static ! tensor-filter framework=tensorflow2-lite model=",
        );
        d.append(tflite_model_file);
        d.append(" ! interpipesink name=");
        d.append(interpipesink.as_str());
        d.append(" sync=false");
        Self::node(pipeline_name, Some(listen_to), d)
    }

    /// Draws the model's boxes over the video and sends the result to a UDP
    /// port.
    pub fn make_bounding_box_pipeline(
        pipeline_name: &str,
        listen_to: &str,
        video: &VideoStreamSettings,
    ) -> (node: PipelineNode)
        ensures
            node@ == (PipelineNodeView {
                name: pipeline_name@,
                upstream: Some(listen_to@),
                description: bounding_box_description(
                    pipeline_name@,
                    listen_to@,
                    video@.camera,
                    video@.detection,
                    video.rtp.overlay_udp_port as int,
                ),
            }),
    {
        let mut d = Self::listen(pipeline_name, listen_to);
        d.append(
            " ! tensor_decoder mode=bounding_boxes option1=mobilenet-ssd-postprocess option2=",
        );
        d.append(video.detection.label_file.as_str());
        d.append(" option3=0:1:2:3,");
        push_decimal(&mut d, video.detection.nms_threshold as i64);
        d.append(" option4=");
        push_decimal(&mut d, video.camera.width as i64);
        d.append(":");
        push_decimal(&mut d, video.camera.height as i64);
        d.append(" option5=");
        push_decimal(&mut d, video.detection.tensor_width as i64);
        d.append(":");
        push_decimal(&mut d, video.detection.tensor_height as i64);
        d.append(
            " ! videoconvert ! v4l2h264enc output-io-mode=mmap capture-io-mode=mmap extra-controls=controls,repeat_sequence_header=1 ! h264parse ! capsfilter caps=video/x-h264,level=(string)3,profile=(string)main ! rtph264pay config-interval=1 aggregate-mode=zero-latency pt=96 ! udpsink port=",
        );
        push_decimal(&mut d, video.rtp.overlay_udp_port as i64);
        d.append("\n            ");
        Self::node(pipeline_name, Some(listen_to), d)
    }

    /// Writes the encoded video into the directory of one recording.
    pub fn make_recording_pipeline(pipeline_name: &str, listen_to: &str, dir: &str) -> (node:
        PipelineNode)
        ensures
            node@ == (PipelineNodeView {
                name: pipeline_name@,
                upstream: Some(listen_to@),
                description: recording_description(pipeline_name@, listen_to@, dir@),
            }),
    {
        let interpipesrc = Self::to_interpipesrc_name(pipeline_name);
        let upstream = Self::to_interpipesink_name(listen_to);
        let mut d = "interpipesrc name=".to_owned();
        d.append(interpipesrc.as_str());
        d.append(" listen-to=");
        d.append(upstream.as_str());
        d.append(
            " accept-events=true accept-eos-event=true is-live=true allow-renegotiation=false ! h264parse ! splitmuxsink location=",
        );
        d.append(dir);
        d.append("/%05d.mp4");
        Self::node(pipeline_name, Some(listen_to), d)
    }

    /// Gathers the model's output into dataframes and publishes them.
    pub fn make_df_pipeline(
        pipeline_name: &str,
        listen_to: &str,
        nms_threshold: i32,
        nats_server_uri: &str,
    ) -> (node: PipelineNode)
        ensures
            node@ == (PipelineNodeView {
                name: pipeline_name@,
                upstream: Some(listen_to@),
                description: df_description(
                    pipeline_name@,
                    listen_to@,
                    nms_threshold as int,
                    nats_server_uri@,
                ),
            }),
    {
        let mut d = Self::listen(pipeline_name, listen_to);
        d.append(
            " ! tensor_decoder mode=custom-code option1=printnanny_bb_dataframe_decoder ! dataframe_agg filter-threshold=",
        );
        push_hundredths(&mut d, nms_threshold);
        d.append(" output-type=json |\n            ! nats_sink nats-address=");
        d.append(nats_server_uri);
        Self::node(pipeline_name, Some(listen_to), d)
    }
}

/// The stages that the settings ask for, in the order in which they are
/// created and started: the camera; the snapshot branch if enabled; the H.264
/// encoder; the HLS branch if enabled; RTP; inference; the overlay of
/// bounding boxes; the dataframes.
pub open spec fn plan_of(video: VideoStreamSettingsView) -> Seq<PipelineNodeView> {
    let camera = seq![
        PipelineNodeView {
            name: "camera"@,
            upstream: None,
            description: camera_description("camera"@, video.camera),
        },
    ];
    let snapshot = if video.snapshot.enabled {
        camera.push(
            PipelineNodeView {
                name: "snapshot"@,
                upstream: Some("camera"@),
                description: snapshot_description("snapshot"@, "camera"@, video.snapshot.path),
            },
        )
    } else {
        camera
    };
    let h264 = snapshot.push(
        PipelineNodeView {
            name: "h264"@,
            upstream: Some("camera"@),
            description: h264_description("h264"@, "camera"@, video.camera.framerate),
        },
    );
    let hls = if video.hls.enabled {
        h264.push(
            PipelineNodeView {
                name: "hls"@,
                upstream: Some("h264"@),
                description: hls_description(
                    "hls"@,
                    "h264"@,
                    video.hls.segments,
                    video.hls.playlist,
                    video.hls.playlist_root,
                ),
            },
        )
    } else {
        h264
    };
    hls.push(
        PipelineNodeView {
            name: "rtp"@,
            upstream: Some("h264"@),
            description: rtp_description("rtp"@, "h264"@, video.rtp.video_udp_port as int),
        },
    ).push(
        PipelineNodeView {
            name: "tflite_inference"@,
            upstream: Some("camera"@),
            description: inference_description(
                "tflite_inference"@,
                "camera"@,
                video.detection.tensor_width,
                video.detection.tensor_height,
                video.detection.model_file,
            ),
        },
    ).push(
        PipelineNodeView {
            name: "bounding_boxes"@,
            upstream: Some("tflite_inference"@),
            description: bounding_box_description(
                "bounding_boxes"@,
                "tflite_inference"@,
                video.camera,
                video.detection,
                video.rtp.overlay_udp_port as int,
            ),
        },
    ).push(
        PipelineNodeView {
            name: "df"@,
            upstream: Some("tflite_inference"@),
            description: df_description(
                "df"@,
                "tflite_inference"@,
                video.detection.nms_threshold,
                video.detection.nats_server_uri,
            ),
        },
    )
}

/// Every stage that listens names a stage that stands earlier in the list.
pub open spec fn upstream_first(plan: Seq<PipelineNodeView>) -> bool {
    forall|i: int|
        0 <= i < plan.len() && (#[trigger] plan[i]).upstream is Some ==> exists|j: int|
            0 <= j < i && (#[trigger] plan[j]).name == plan[i].upstream->0
}

/// In the list of stages that any settings give, a stage that listens to
/// another comes after it: created in this order, no stage is bound to an
/// output that does not exist yet.
pub proof fn plan_is_ordered(video: VideoStreamSettingsView)
    ensures
        upstream_first(plan_of(video)),
        plan_of(video).len() == 6 + (if video.snapshot.enabled {
            1nat
        } else {
            0nat
        }) + (if video.hls.enabled {
            1nat
        } else {
            0nat
        }),
        plan_of(video)[0].name == "camera"@,
        plan_of(video)[0].upstream is None,
{
    let plan = plan_of(video);
    let s: int = if video.snapshot.enabled {
        1
    } else {
        0
    };
    let h: int = if video.hls.enabled {
        1
    } else {
        0
    };
    assert(plan[0].name == "camera"@);
    assert(plan[1 + s].name == "h264"@);
    assert(plan[3 + s + h].name == "tflite_inference"@);
    assert forall|i: int| 0 <= i < plan.len() && (#[trigger] plan[i]).upstream is Some implies exists|
        j: int,
    |
        0 <= j < i && (#[trigger] plan[j]).name == plan[i].upstream->0 by {
        if plan[i].upstream->0 == "camera"@ {
            assert(plan[0].name == plan[i].upstream->0);
        } else if plan[i].upstream->0 == "h264"@ {
            assert(plan[1 + s].name == plan[i].upstream->0);
            assert(1 + s < i);
        } else {
            assert(plan[i].upstream->0 == "tflite_inference"@);
            assert(plan[3 + s + h].name == plan[i].upstream->0);
            assert(3 + s + h < i);
        }
    }
}

impl PrintNannyPipelineFactory {
    /// Lists the stages to create and start, in order.
    pub fn plan(video: &VideoStreamSettings) -> (plan: Vec<PipelineNode>)
        ensures
            nodes_view(plan@) == plan_of(video@),
            upstream_first(nodes_view(plan@)),
    {
        let camera_pipeline_name = "camera";
        let h264_pipeline_name = "h264";
        let inference_pipeline_name = "tflite_inference";
        let mut plan: Vec<PipelineNode> = Vec::new();
        plan.push(Self::make_camera_pipeline(camera_pipeline_name, &video.camera));
        assert(nodes_view(plan@) == seq![plan@[0]@]);
        if video.snapshot.enabled {
            let ghost before = plan@;
            plan.push(
                Self::make_jpeg_snapshot_pipeline(
                    "snapshot",
                    camera_pipeline_name,
                    video.snapshot.path.as_str(),
                ),
            );
            assert(nodes_view(plan@) == nodes_view(before).push(plan@[plan@.len() - 1]@));
        }
        let ghost before = plan@;
        plan.push(
            Self::make_h264_pipeline(h264_pipeline_name, camera_pipeline_name, video.camera.framerate),
        );
        assert(nodes_view(plan@) == nodes_view(before).push(plan@[plan@.len() - 1]@));
        if video.hls.enabled {
            let ghost before = plan@;
            plan.push(
                Self::make_hls_pipeline(
                    "hls",
                    h264_pipeline_name,
                    video.hls.segments.as_str(),
                    video.hls.playlist.as_str(),
                    video.hls.playlist_root.as_str(),
                ),
            );
            assert(nodes_view(plan@) == nodes_view(before).push(plan@[plan@.len() - 1]@));
        }
        let ghost before = plan@;
        plan.push(Self::make_rtp_pipeline("rtp", h264_pipeline_name, video.rtp.video_udp_port));
        assert(nodes_view(plan@) == nodes_view(before).push(plan@[plan@.len() - 1]@));
        let ghost before = plan@;
        plan.push(
            Self::make_inference_pipeline(
                inference_pipeline_name,
                camera_pipeline_name,
                video.detection.tensor_width,
                video.detection.tensor_height,
                video.detection.model_file.as_str(),
            ),
        );
        assert(nodes_view(plan@) == nodes_view(before).push(plan@[plan@.len() - 1]@));
        let ghost before = plan@;
        plan.push(
            Self::make_bounding_box_pipeline("bounding_boxes", inference_pipeline_name, video),
        );
        assert(nodes_view(plan@) == nodes_view(before).push(plan@[plan@.len() - 1]@));
        let ghost before = plan@;
        plan.push(
            Self::make_df_pipeline(
                "df",
                inference_pipeline_name,
                video.detection.nms_threshold,
                video.detection.nats_server_uri.as_str(),
            ),
        );
        assert(nodes_view(plan@) == nodes_view(before).push(plan@[plan@.len() - 1]@));
        proof {
            plan_is_ordered(video@);
        }
        plan
    }
}

/// What went wrong between this device and the pipeline server.
#[derive(Clone, Copy, PartialEq, Eq, Structural, Debug)]
pub enum PipelineFault {
    /// The server answered with this HTTP status.
    BadStatus(u16),
    /// No answer could be had or read.
    Transport,
}

/// How a call that creates a stage ended well.
#[derive(Clone, Copy, PartialEq, Eq, Structural, Debug)]
pub enum Provisioned {
    Created,
    /// The server already held a stage of that name: nothing was changed.
    ConflictIgnored,
}

/// A failure that ends the start-up.
#[derive(Clone, Copy, PartialEq, Eq, Structural, Debug)]
pub enum PipelineError {
    Fatal(PipelineFault),
}

/// The HTTP status by which the server says that the name is taken.
pub const HTTP_CONFLICT: u16 = 409;

/// What the answer to a creating call means.
pub open spec fn provision_of(response: Result<(), PipelineFault>) -> Result<
    Provisioned,
    PipelineError,
> {
    match response {
        Ok(()) => Ok(Provisioned::Created),
        Err(PipelineFault::BadStatus(status)) => if status == HTTP_CONFLICT {
            Ok(Provisioned::ConflictIgnored)
        } else {
            Err(PipelineError::Fatal(PipelineFault::BadStatus(status)))
        },
        Err(PipelineFault::Transport) => Err(PipelineError::Fatal(PipelineFault::Transport)),
    }
}

/// Creating a stage is idempotent: a stage that exists already counts as
/// created. Every other failure is fatal and handed on as it came.
pub fn provision(response: Result<(), PipelineFault>) -> (r: Result<Provisioned, PipelineError>)
    ensures
        r == provision_of(response),
        response is Ok ==> r is Ok,
        response == Err::<(), PipelineFault>(PipelineFault::BadStatus(HTTP_CONFLICT)) ==> r == Ok::<
            Provisioned,
            PipelineError,
        >(Provisioned::ConflictIgnored),
{
    match response {
        Ok(()) => Ok(Provisioned::Created),
        Err(PipelineFault::BadStatus(status)) => {
            if status == HTTP_CONFLICT {
                Ok(Provisioned::ConflictIgnored)
            } else {
                Err(PipelineError::Fatal(PipelineFault::BadStatus(status)))
            }
        },
        Err(PipelineFault::Transport) => Err(PipelineError::Fatal(PipelineFault::Transport)),
    }
}

/// What the caller does next for a start-up in progress.
#[derive(Clone, Copy, PartialEq, Eq, Structural, Debug)]
pub enum StartAction {
    /// Create the stage at this place in the plan.
    Create(usize),
    /// Set the stage at this place in the plan playing.
    Play(usize),
    /// Every stage is created and playing.
    Finished,
    /// A step failed: nothing more is to be done. What was created stays.
    Aborted(PipelineError),
}

/// Progress of one start-up over a plan of `total` stages: the first
/// `created` stages exist, the first `played` of them are playing.
#[derive(Clone, Copy, PartialEq, Eq, Structural, Debug)]
pub struct StartRun {
    pub total: usize,
    pub created: usize,
    pub played: usize,
    pub failure: Option<PipelineError>,
}

impl StartRun {
    /// Stages are created in the plan's order, and each is set playing
    /// before the next is created.
    pub open spec fn well_formed(&self) -> bool {
        &&& self.played <= self.created <= self.total
        &&& self.created <= self.played + 1
    }

    pub open spec fn spec_next_action(&self) -> StartAction {
        match self.failure {
            Some(error) => StartAction::Aborted(error),
            None => if self.played < self.created {
                StartAction::Play(self.played)
            } else if self.created < self.total {
                StartAction::Create(self.created)
            } else {
                StartAction::Finished
            },
        }
    }

    pub open spec fn spec_record(&self, result: Result<(), PipelineError>) -> StartRun {
        match self.spec_next_action() {
            StartAction::Create(_) => match result {
                Ok(()) => StartRun { created: (self.created + 1) as usize, ..*self },
                Err(error) => StartRun { failure: Some(error), ..*self },
            },
            StartAction::Play(_) => match result {
                Ok(()) => StartRun { played: (self.played + 1) as usize, ..*self },
                Err(error) => StartRun { failure: Some(error), ..*self },
            },
            StartAction::Finished => *self,
            StartAction::Aborted(_) => *self,
        }
    }

    /// Computes `well_formed`.
    pub fn check(&self) -> (r: bool)
        ensures
            r == self.well_formed(),
    {
        self.played <= self.created && self.created <= self.total && self.created - self.played
            <= 1
    }

    /// A start-up of which nothing is done yet.
    pub fn begin(total: usize) -> (run: StartRun)
        ensures
            run == (StartRun { total, created: 0, played: 0, failure: None }),
            run.well_formed(),
    {
        StartRun { total, created: 0, played: 0, failure: None }
    }

    /// The step to take now. A stage is set playing only once it is created,
    /// and created only once every stage before it is playing.
    pub fn next_action(&self) -> (action: StartAction)
        requires
            self.well_formed(),
        ensures
            action == self.spec_next_action(),
            action matches StartAction::Play(i) ==> i < self.created && i == self.played,
            action matches StartAction::Create(i) ==> i < self.total && i == self.created && i
                == self.played,
            action is Finished ==> self.played == self.total,
            action is Aborted <==> self.failure is Some,
    {
        match self.failure {
            Some(error) => StartAction::Aborted(error),
            None => {
                if self.played < self.created {
                    StartAction::Play(self.played)
                } else if self.created < self.total {
                    StartAction::Create(self.created)
                } else {
                    StartAction::Finished
                }
            },
        }
    }

    /// Takes note of how the step that `next_action` named has ended. The
    /// first failure ends the start-up: after it no step is named any more.
    pub fn record(&mut self, result: Result<(), PipelineError>)
        requires
            old(self).well_formed(),
        ensures
            *final(self) == old(self).spec_record(result),
            final(self).well_formed(),
            final(self).total == old(self).total,
            final(self).created >= old(self).created,
            final(self).played >= old(self).played,
            old(self).failure is Some ==> *final(self) == *old(self),
            old(self).failure is None && result is Err && !(old(self).spec_next_action()
                is Finished) ==> final(self).failure == Some(result->Err_0),
    {
        match self.next_action() {
            StartAction::Create(_) => match result {
                Ok(()) => {
                    self.created = self.created + 1;
                },
                Err(error) => {
                    self.failure = Some(error);
                },
            },
            StartAction::Play(_) => match result {
                Ok(()) => {
                    self.played = self.played + 1;
                },
                Err(error) => {
                    self.failure = Some(error);
                },
            },
            StartAction::Finished => {},
            StartAction::Aborted(_) => {},
        }
    }

    /// How the start-up ended, once it has.
    pub fn outcome(&self) -> (r: Option<Result<(), PipelineError>>)
        requires
            self.well_formed(),
        ensures
            r == match self.spec_next_action() {
                StartAction::Finished => Some(Ok::<(), PipelineError>(())),
                StartAction::Aborted(error) => Some(Err::<(), PipelineError>(error)),
                _ => None,
            },
    {
        match self.next_action() {
            StartAction::Finished => Some(Ok(())),
            StartAction::Aborted(error) => Some(Err(error)),
            _ => None,
        }
    }
}

/// When a start-up over an ordered plan is about to create a stage that
/// listens to another, that other stage is already created and playing.
pub proof fn created_after_upstream(plan: Seq<PipelineNodeView>, run: StartRun, i: int)
    requires
        upstream_first(plan),
        run.well_formed(),
        run.total == plan.len(),
        run.spec_next_action() == StartAction::Create(i as usize),
        0 <= i < plan.len(),
        plan[i].upstream is Some,
    ensures
        exists|j: int| 0 <= j < run.played && (#[trigger] plan[j]).name == plan[i].upstream->0,
{
    assert(plan[i].upstream is Some);
    let j = choose|j: int| 0 <= j < i && (#[trigger] plan[j]).name == plan[i].upstream->0;
    assert(0 <= j < run.played && plan[j].name == plan[i].upstream->0);
}

/// The steps that a start-up names while every step succeeds, from `run` on.
pub open spec fn remaining_steps(run: StartRun) -> Seq<StartAction>
    decreases 2 * run.total - run.created - run.played,
{
    if !run.well_formed() {
        Seq::empty()
    } else {
        match run.spec_next_action() {
            StartAction::Create(i) => seq![StartAction::Create(i)] + remaining_steps(
                run.spec_record(Ok(())),
            ),
            StartAction::Play(i) => seq![StartAction::Play(i)] + remaining_steps(
                run.spec_record(Ok(())),
            ),
            _ => Seq::empty(),
        }
    }
}

/// While every step succeeds, a start-up over `total` stages names, for
/// each stage in the plan's order, first its creation and then its start,
/// and nothing else.
pub proof fn steps_alternate(run: StartRun, k: int)
    requires
        run.well_formed(),
        run.failure is None,
        0 <= k < remaining_steps(run).len(),
    ensures
        remaining_steps(run).len() == 2 * run.total - run.created - run.played,
        remaining_steps(run)[k] == if (run.created + run.played + k) % 2 == 0 {
            StartAction::Create(((run.created + run.played + k) / 2) as usize)
        } else {
            StartAction::Play(((run.created + run.played + k) / 2) as usize)
        },
    decreases 2 * run.total - run.created - run.played,
{
    steps_count(run);
    let next = run.spec_record(Ok(()));
    if k > 0 {
        steps_count(next);
        steps_alternate(next, k - 1);
        assert(remaining_steps(run)[k] == remaining_steps(next)[k - 1]);
    }
}

proof fn steps_count(run: StartRun)
    requires
        run.well_formed(),
        run.failure is None,
    ensures
        remaining_steps(run).len() == 2 * run.total - run.created - run.played,
    decreases 2 * run.total - run.created - run.played,
{
    if !(run.spec_next_action() is Finished) {
        steps_count(run.spec_record(Ok(())));
    }
}

/// The stages that a pipeline server holds, by name: what this library
/// assumes of the server when it creates a stage.
#[derive(Debug, PartialEq, Eq)]
pub struct PipelineServer {
    pub names: Vec<String>,
}

impl View for PipelineServer {
    type V = Seq<Seq<char>>;

    open spec fn view(&self) -> Seq<Seq<char>> {
        self.names@.map_values(|n: String| n@)
    }
}

/// What a server answers when asked to create a stage: a conflict where it
/// holds one of that name, which it keeps.
pub open spec fn server_create(held: Seq<Seq<char>>, name: Seq<char>) -> (
    Seq<Seq<char>>,
    Result<(), PipelineFault>,
) {
    if held.contains(name) {
        (held, Err(PipelineFault::BadStatus(HTTP_CONFLICT)))
    } else {
        (held.push(name), Ok(()))
    }
}

impl PipelineServer {
    /// A server that holds no stage.
    pub fn new() -> (server: Self)
        ensures
            server@ == Seq::<Seq<char>>::empty(),
    {
        let server = PipelineServer { names: Vec::new() };
        assert(server@ =~= Seq::<Seq<char>>::empty());
        server
    }

    /// Whether the server holds a stage of this name.
    pub fn holds(&self, name: &str) -> (r: bool)
        ensures
            r == self@.contains(name@),
    {
        let mut i: usize = 0;
        while i < self.names.len()
            invariant
                i <= self.names.len(),
                forall|k: int| 0 <= k < i ==> (#[trigger] self@[k]) != name@,
            decreases self.names.len() - i,
        {
            assert(self@[i as int] == self.names@[i as int]@);
            if crate::text::same_text(self.names[i].as_str(), name) {
                return true;
            }
            i = i + 1;
        }
        false
    }

    /// Creates a stage on the server.
    pub fn create(&mut self, name: &str) -> (r: Result<(), PipelineFault>)
        ensures
            (final(self)@, r) == server_create(old(self)@, name@),
    {
        if self.holds(name) {
            Err(PipelineFault::BadStatus(HTTP_CONFLICT))
        } else {
            let ghost before = self@;
            self.names.push(name.to_owned());
            assert(self@ =~= before.push(name@));
            Ok(())
        }
    }

    /// Provisions a stage: creates it unless the server holds it already.
    /// Either way the server holds it afterwards.
    pub fn provision(&mut self, name: &str) -> (r: Result<Provisioned, PipelineError>)
        ensures
            r == provision_of(server_create(old(self)@, name@).1),
            final(self)@ == server_create(old(self)@, name@).0,
            r is Ok,
            final(self)@.contains(name@),
            old(self)@.contains(name@) ==> final(self)@ == old(self)@,
    {
        let response = self.create(name);
        proof {
            if !old(self)@.contains(name@) {
                assert(old(self)@.push(name@)[old(self)@.len() as int] == name@);
            }
        }
        provision(response)
    }
}

/// Provisioning is idempotent: against a server that holds the stage
/// already it succeeds, as often as it is tried, and changes nothing.
pub proof fn provision_is_idempotent(held: Seq<Seq<char>>, name: Seq<char>)
    ensures
        provision_of(server_create(server_create(held, name).0, name).1) is Ok,
        server_create(server_create(held, name).0, name).0 == server_create(held, name).0,
        held.contains(name) ==> provision_of(server_create(held, name).1) == Ok::<
            Provisioned,
            PipelineError,
        >(Provisioned::ConflictIgnored) && server_create(held, name).0 == held,
{
    if !held.contains(name) {
        assert(held.push(name)[held.len() as int] == name);
    }
}

} // verus!
