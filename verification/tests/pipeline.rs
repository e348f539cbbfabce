use printnanny::pipeline::{
    provision, push_hundredths, PipelineError, PipelineFault, PipelineNode, PipelineServer,
    PrintNannyPipelineFactory, Provisioned, StartAction, StartRun,
};
use printnanny::settings::default_video_stream;
use printnanny::video::CameraSettings;

fn names(plan: &Vec<PipelineNode>) -> Vec<String> {
    plan.iter().map(|n| n.name.clone()).collect()
}

#[test]
fn factory_uri_is_http_address_and_port() {
    let factory = PrintNannyPipelineFactory::new("localhost".to_string(), 5001);
    assert_eq!(factory.address, "localhost");
    assert_eq!(factory.port, 5001);
    assert_eq!(factory.uri, "http://localhost:5001");
    assert_eq!(PrintNannyPipelineFactory::uri("10.0.0.2", -1), "http://10.0.0.2:-1");
}

#[test]
fn interpipe_names() {
    assert_eq!(PrintNannyPipelineFactory::to_interpipesrc_name("h264"), "h264_src");
    assert_eq!(PrintNannyPipelineFactory::to_interpipesink_name("camera"), "camera_sink");
}

#[test]
fn camera_description_is_exact() {
    let camera = CameraSettings {
        device_name: "/base/soc/i2c0mux/i2c@1/imx219@10".to_string(),
        label: "imx219".to_string(),
        width: 640,
        height: 480,
        framerate: 16,
    };
    let node = PrintNannyPipelineFactory::make_camera_pipeline("camera", &camera);
    assert_eq!(node.name, "camera");
    assert_eq!(node.upstream, None);
    assert_eq!(
        node.description,
        "libcamerasrc camera-name=/base/soc/i2c0mux/i2c@1/imx219@10 ! capsfilter caps=video/x-raw,width=(int)640,height=(int)480,framerate=(fraction)16/1 ! interpipesink name=camera_sink sync=false"
    );
}

#[test]
fn snapshot_description_is_exact() {
    let node = PrintNannyPipelineFactory::make_jpeg_snapshot_pipeline(
        "snapshot",
        "camera",
        "/var/run/snapshot-%d.jpg",
    );
    assert_eq!(node.upstream, Some("camera".to_string()));
    assert_eq!(
        node.description,
        "interpipesrc name=snapshot_src listen-to=camera_sink accept-events=false accept-eos-event=false is-live=true allow-renegotiation=false num-buffers=2 leaky-type=2 ! v4l2jpegenc ! multifilesink max-files=2 location=/var/run/snapshot-%d.jpg"
    );
}

#[test]
fn h264_description_is_exact() {
    let node = PrintNannyPipelineFactory::make_h264_pipeline("h264", "camera", 16);
    assert_eq!(
        node.description,
        "interpipesrc name=h264_src listen-to=camera_sink accept-events=false accept-eos-event=false is-live=true allow-renegotiation=false ! v4l2convert ! v4l2h264enc min-force-key-unit-interval=16 extra-controls=controls,repeat_sequence_header=1 ! h264parse ! capsfilter caps=video/x-h264,level=(string)3,profile=(string)main ! interpipesink name=h264_sink sync=false"
    );
}

#[test]
fn rtp_description_is_exact() {
    let node = PrintNannyPipelineFactory::make_rtp_pipeline("rtp", "h264", 20001);
    assert_eq!(
        node.description,
        "interpipesrc name=rtp_src listen-to=h264_sink accept-events=false accept-eos-event=false is-live=true allow-renegotiation=false ! rtph264pay config-interval=1 aggregate-mode=zero-latency pt=96 ! udpsink port=20001"
    );
}

#[test]
fn hls_description_is_exact() {
    let node = PrintNannyPipelineFactory::make_hls_pipeline(
        "hls",
        "h264",
        "/hls/segment%05d.ts",
        "/hls/playlist.m3u8",
        "/printnanny-hls/",
    );
    assert_eq!(
        node.description,
        "interpipesrc name=hls_src listen-to=h264_sink accept-events=false accept-eos-event=false is-live=true allow-renegotiation=false ! hlssink2 paylist-length=8 max-files=10 target-duration=1 location=/hls/segment%05d.ts playlist-location=/hls/playlist.m3u8 playlist-root=/printnanny-hls/ send-keyframe-requests=false"
    );
}

#[test]
fn inference_description_is_exact() {
    let node = PrintNannyPipelineFactory::make_inference_pipeline(
        "tflite_inference",
        "camera",
        320,
        240,
        "/model.tflite",
    );
    assert_eq!(
        node.description,
        "interpipesrc name=tflite_inference_src listen-to=camera_sink accept-events=false accept-eos-event=false is-live=true allow-renegotiation=false num-buffers=2 leaky-type=2 ! videoconvert ! videoscale ! capsfilter caps=video/x-raw,format=RGB,width=320,height=240 ! tensor_converter ! tensor_transform mode=arithmetic option=typecast:uint8,add:0,div:1 ! capsfilter caps=other/tensors,format=static ! tensor-filter framework=tensorflow2-lite model=/model.tflite ! interpipesink name=tflite_inference_sink sync=false"
    );
}

#[test]
fn bounding_box_description_is_exact() {
    let mut video = default_video_stream();
    video.detection.label_file = "/labels.txt".to_string();
    video.detection.nms_threshold = 66;
    video.camera.width = 640;
    video.camera.height = 480;
    video.detection.tensor_width = 320;
    video.detection.tensor_height = 240;
    video.rtp.overlay_udp_port = 20002;
    let node = PrintNannyPipelineFactory::make_bounding_box_pipeline(
        "bounding_boxes",
        "tflite_inference",
        &video,
    );
    assert_eq!(
        node.description,
        "interpipesrc name=bounding_boxes_src listen-to=tflite_inference_sink accept-events=false accept-eos-event=false is-live=true allow-renegotiation=false ! tensor_decoder mode=bounding_boxes option1=mobilenet-ssd-postprocess option2=/labels.txt option3=0:1:2:3,66 option4=640:480 option5=320:240 ! videoconvert ! v4l2h264enc output-io-mode=mmap capture-io-mode=mmap extra-controls=controls,repeat_sequence_header=1 ! h264parse ! capsfilter caps=video/x-h264,level=(string)3,profile=(string)main ! rtph264pay config-interval=1 aggregate-mode=zero-latency pt=96 ! udpsink port=20002\n            "
    );
}

#[test]
fn df_description_is_exact() {
    let node = PrintNannyPipelineFactory::make_df_pipeline(
        "df",
        "tflite_inference",
        66,
        "nats://127.0.0.1:4223",
    );
    assert_eq!(
        node.description,
        "interpipesrc name=df_src listen-to=tflite_inference_sink accept-events=false accept-eos-event=false is-live=true allow-renegotiation=false ! tensor_decoder mode=custom-code option1=printnanny_bb_dataframe_decoder ! dataframe_agg filter-threshold=0.66 output-type=json |\n            ! nats_sink nats-address=nats://127.0.0.1:4223"
    );
}

#[test]
fn recording_description_is_exact() {
    let node = PrintNannyPipelineFactory::make_recording_pipeline("recording", "h264", "/video/abc");
    assert_eq!(node.upstream, Some("h264".to_string()));
    assert_eq!(
        node.description,
        "interpipesrc name=recording_src listen-to=h264_sink accept-events=true accept-eos-event=true is-live=true allow-renegotiation=false ! h264parse ! splitmuxsink location=/video/abc/%05d.mp4"
    );
}

#[test]
fn hundredths_exact_values() {
    let cases: Vec<(i32, &str)> = vec![
        (0, "0"),
        (5, "0.05"),
        (50, "0.5"),
        (66, "0.66"),
        (100, "1"),
        (125, "1.25"),
        (-125, "-1.25"),
        (-50, "-0.5"),
        (1000, "10"),
        (i32::MAX, "21474836.47"),
        (i32::MIN, "-21474836.48"),
    ];
    for (n, expected) in cases {
        let mut s = String::new();
        push_hundredths(&mut s, n);
        assert_eq!(s, expected);
    }
}

#[test]
fn hundredths_reads_as_the_fraction() {
    let mut n: i32 = -2000;
    while n <= 2000 {
        let mut s = String::new();
        push_hundredths(&mut s, n);
        let as_float: f32 = n as f32 / 100_f32;
        assert_eq!(s, format!("{}", as_float));
        n += 1;
    }
}

#[test]
fn plan_with_every_branch() {
    let video = default_video_stream();
    let plan = PrintNannyPipelineFactory::plan(&video);
    assert_eq!(
        names(&plan),
        vec![
            "camera",
            "snapshot",
            "h264",
            "hls",
            "rtp",
            "tflite_inference",
            "bounding_boxes",
            "df"
        ]
    );
    assert_eq!(plan[0].upstream, None);
    assert_eq!(plan[1].upstream, Some("camera".to_string()));
    assert_eq!(plan[2].upstream, Some("camera".to_string()));
    assert_eq!(plan[3].upstream, Some("h264".to_string()));
    assert_eq!(plan[4].upstream, Some("h264".to_string()));
    assert_eq!(plan[5].upstream, Some("camera".to_string()));
    assert_eq!(plan[6].upstream, Some("tflite_inference".to_string()));
    assert_eq!(plan[7].upstream, Some("tflite_inference".to_string()));
}

#[test]
fn plan_skips_disabled_branches() {
    let mut video = default_video_stream();
    video.snapshot.enabled = false;
    video.hls.enabled = false;
    let plan = PrintNannyPipelineFactory::plan(&video);
    assert_eq!(
        names(&plan),
        vec!["camera", "h264", "rtp", "tflite_inference", "bounding_boxes", "df"]
    );
    video.snapshot.enabled = true;
    let plan = PrintNannyPipelineFactory::plan(&video);
    assert_eq!(
        names(&plan),
        vec!["camera", "snapshot", "h264", "rtp", "tflite_inference", "bounding_boxes", "df"]
    );
}

#[test]
fn plan_names_upstreams_that_come_earlier() {
    for (snapshot, hls) in [(false, false), (false, true), (true, false), (true, true)] {
        let mut video = default_video_stream();
        video.snapshot.enabled = snapshot;
        video.hls.enabled = hls;
        let plan = PrintNannyPipelineFactory::plan(&video);
        for (i, node) in plan.iter().enumerate() {
            if let Some(upstream) = &node.upstream {
                assert!(plan[..i].iter().any(|earlier| &earlier.name == upstream));
            }
        }
    }
}

#[test]
fn provision_twice_against_a_server_that_holds_the_stage() {
    // the server answers 409 each time that "camera" is created again
    let first = provision(Err(PipelineFault::BadStatus(409)));
    let second = provision(Err(PipelineFault::BadStatus(409)));
    assert_eq!(first, Ok(Provisioned::ConflictIgnored));
    assert_eq!(second, Ok(Provisioned::ConflictIgnored));
}

#[test]
fn provision_outcomes() {
    assert_eq!(provision(Ok(())), Ok(Provisioned::Created));
    assert_eq!(
        provision(Err(PipelineFault::BadStatus(500))),
        Err(PipelineError::Fatal(PipelineFault::BadStatus(500)))
    );
    assert_eq!(
        provision(Err(PipelineFault::BadStatus(404))),
        Err(PipelineError::Fatal(PipelineFault::BadStatus(404)))
    );
    assert_eq!(
        provision(Err(PipelineFault::Transport)),
        Err(PipelineError::Fatal(PipelineFault::Transport))
    );
}

#[test]
fn start_run_creates_then_plays_each_stage_in_order() {
    let mut run = StartRun::begin(3);
    let mut actions = Vec::new();
    loop {
        let action = run.next_action();
        match action {
            StartAction::Finished | StartAction::Aborted(_) => break,
            _ => {
                actions.push(action);
                run.record(Ok(()));
            }
        }
    }
    assert_eq!(
        actions,
        vec![
            StartAction::Create(0),
            StartAction::Play(0),
            StartAction::Create(1),
            StartAction::Play(1),
            StartAction::Create(2),
            StartAction::Play(2),
        ]
    );
    assert_eq!(run.next_action(), StartAction::Finished);
    assert_eq!(run.outcome(), Some(Ok(())));
}

#[test]
fn start_run_stops_at_the_first_failure() {
    let error = PipelineError::Fatal(PipelineFault::BadStatus(500));
    let mut run = StartRun::begin(3);
    run.record(Ok(())); // created 0
    run.record(Ok(())); // playing 0
    assert_eq!(run.next_action(), StartAction::Create(1));
    run.record(Err(error));
    assert_eq!(run.next_action(), StartAction::Aborted(error));
    assert_eq!(run.outcome(), Some(Err(error)));
    // what was created stays, and nothing more is asked for
    run.record(Ok(()));
    assert_eq!(run.created, 1);
    assert_eq!(run.played, 1);
    assert_eq!(run.next_action(), StartAction::Aborted(error));
}

#[test]
fn start_run_over_no_stage_is_finished() {
    let run = StartRun::begin(0);
    assert_eq!(run.next_action(), StartAction::Finished);
    assert_eq!(run.outcome(), Some(Ok(())));
    let run = StartRun::begin(1);
    assert_eq!(run.outcome(), None);
}

#[test]
fn provision_against_a_server_is_idempotent() {
    let mut server = PipelineServer::new();
    assert!(!server.holds("camera"));
    assert_eq!(server.provision("camera"), Ok(Provisioned::Created));
    assert!(server.holds("camera"));
    // the server holds "camera" already: success both times, nothing changes
    assert_eq!(server.provision("camera"), Ok(Provisioned::ConflictIgnored));
    assert_eq!(server.provision("camera"), Ok(Provisioned::ConflictIgnored));
    assert_eq!(server.names, vec!["camera".to_string()]);
    assert_eq!(server.create("camera"), Err(PipelineFault::BadStatus(409)));
    assert_eq!(server.create("h264"), Ok(()));
    assert_eq!(server.names, vec!["camera".to_string(), "h264".to_string()]);
}

#[test]
fn start_run_knows_when_it_lost_count() {
    assert!(StartRun::begin(2).check());
    assert!(!StartRun { total: 2, created: 2, played: 0, failure: None }.check());
    assert!(!StartRun { total: 1, created: 2, played: 2, failure: None }.check());
    assert!(!StartRun { total: 3, created: 1, played: 2, failure: None }.check());
}
