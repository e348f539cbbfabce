use printnanny::handlers::{Engine, WorkClass};
use printnanny::message::NatsRequest;
use printnanny::recording::{
    begin_recording, end_recording, find_by_id, find_current, plan_start, plan_stop,
    sync_unit_name, time_text, CloudRecordError,
    CloudVideoRecording, CloudVideoRecordingPart, RecordingState, RecordingStateError,
    RecordingStore,
    UpdateVideoRecording, UpdateVideoRecordingPart, VideoRecording, VideoRecordingPart,
    RECORDING_SYNC_TEMPLATE,
};
use printnanny::reply::NatsReply;
use printnanny::subject::Subject;
use printnanny::systemd::{BusCall, JobMode};

fn row(id: &str, capture_done: bool, start: Option<i64>) -> VideoRecording {
    VideoRecording {
        id: id.to_string(),
        capture_done,
        cloud_sync_done: false,
        dir: format!("/video/{}", id),
        recording_start: start,
        recording_end: None,
        gcode_file_name: None,
    }
}

fn no_changes() -> UpdateVideoRecording {
    UpdateVideoRecording {
        capture_done: None,
        cloud_sync_done: None,
        dir: None,
        recording_start: None,
        recording_end: None,
        gcode_file_name: None,
    }
}

#[test]
fn start_creates_an_open_row_with_a_directory_of_its_own() {
    let mut store = RecordingStore::new();
    let started = store.start_new("abc".to_string(), "/video", 1000).unwrap();
    assert_eq!(
        started,
        VideoRecording {
            id: "abc".to_string(),
            capture_done: false,
            cloud_sync_done: false,
            dir: "/video/abc".to_string(),
            recording_start: Some(1000),
            recording_end: None,
            gcode_file_name: None,
        }
    );
    assert_eq!(store.get_all(), vec![started.clone()]);
    assert_eq!(store.get_current(), Some(&started));
}

#[test]
fn start_then_stop_closes_the_same_row_and_names_the_sync_unit() {
    let mut store = RecordingStore::new();
    let started = store.start_new("abc".to_string(), "/video", 1000).unwrap();
    let stopped = store.stop_at(true, RECORDING_SYNC_TEMPLATE, 2000);
    let recording = stopped.recording.unwrap();
    assert_eq!(recording.id, started.id);
    assert_eq!(recording.dir, started.dir);
    assert!(recording.capture_done);
    assert_eq!(recording.recording_start, Some(1000));
    assert_eq!(recording.recording_end, Some(2000));
    assert_eq!(stopped.sync_unit, Some("recording-sync@abc.service".to_string()));
    assert_eq!(store.get_all().len(), 1);
    assert_eq!(store.get_by_id("abc"), Some(&recording));
    assert_eq!(store.get_current(), None);
}

#[test]
fn stop_without_cloud_sync_starts_no_unit() {
    let mut store = RecordingStore::new();
    store.start_new("abc".to_string(), "/video", 1000).unwrap();
    let stopped = store.stop_at(false, RECORDING_SYNC_TEMPLATE, 2000);
    assert!(stopped.recording.is_some());
    assert_eq!(stopped.sync_unit, None);
}

#[test]
fn start_while_a_recording_is_open_fails() {
    let mut store = RecordingStore::new();
    store.start_new("one".to_string(), "/video", 1).unwrap();
    let before = store.get_all();
    assert_eq!(
        store.start_new("two".to_string(), "/video", 2),
        Err(RecordingStateError::AlreadyRecording)
    );
    assert_eq!(store.start("/video"), Err(RecordingStateError::AlreadyRecording));
    assert_eq!(store.get_all(), before);
    store.stop_at(false, RECORDING_SYNC_TEMPLATE, 3);
    assert!(store.start_new("two".to_string(), "/video", 4).is_ok());
    let all = store.get_all();
    let open: Vec<&VideoRecording> = all.iter().filter(|r| !r.capture_done).collect();
    assert_eq!(open.len(), 1);
    assert_eq!(open[0].id, "two");
}

#[test]
fn start_under_an_id_that_is_taken_fails() {
    let mut store = RecordingStore::new();
    store.start_new("one".to_string(), "/video", 1).unwrap();
    store.stop_at(false, RECORDING_SYNC_TEMPLATE, 2);
    assert_eq!(
        store.start_new("one".to_string(), "/video", 3),
        Err(RecordingStateError::DuplicateId)
    );
    assert_eq!(store.get_all().len(), 1);
}

#[test]
fn stop_while_idle_names_no_recording_and_is_no_error() {
    let mut store = RecordingStore::new();
    let stopped = store.stop_at(true, RECORDING_SYNC_TEMPLATE, 5);
    assert_eq!(stopped.recording, None);
    assert_eq!(stopped.sync_unit, None);
    assert!(store.get_all().is_empty());
    let stopped = store.stop(true, RECORDING_SYNC_TEMPLATE);
    assert_eq!(stopped.recording, None);
    let (reply, call) =
        NatsRequest::handle_camera_recording_stop(&mut store, true, RECORDING_SYNC_TEMPLATE);
    assert_eq!(call, None);
    match reply {
        NatsReply::CameraRecordingStopReply(stopped) => assert_eq!(stopped.recording, None),
        _ => panic!("Expected NatsReply::CameraRecordingStopReply"),
    }
}

#[test]
fn start_gives_fresh_ids_and_directories() {
    let mut store = RecordingStore::new();
    let first = store.start("/video").unwrap();
    assert!(!first.capture_done);
    assert_eq!(first.dir, format!("/video/{}", first.id));
    assert!(first.recording_start.is_some());
    let stopped = store.stop(true, "recording-sync");
    assert_eq!(
        stopped.sync_unit,
        Some(format!("recording-sync@{}.service", first.id))
    );
    let closed = stopped.recording.unwrap();
    assert!(closed.capture_done);
    assert!(closed.recording_end.is_some());
    let second = store.start("/video").unwrap();
    assert_ne!(first.id, second.id);
    assert_ne!(first.dir, second.dir);
    assert_eq!(store.get_all().len(), 2);
}

#[test]
fn handlers_start_load_stop() {
    let mut store = RecordingStore::new();
    let reply = NatsRequest::handle_camera_recording_start(&mut store, "/video").unwrap();
    let started = match reply {
        NatsReply::CameraRecordingStartReply(started) => started.recording,
        _ => panic!("Expected NatsReply::CameraRecordingStartReply"),
    };
    assert!(matches!(
        NatsRequest::handle_camera_recording_start(&mut store, "/video"),
        Err(RecordingStateError::AlreadyRecording)
    ));
    match NatsRequest::handle_camera_recording_load(&store) {
        NatsReply::CameraRecordingLoadReply(loaded) => {
            assert_eq!(loaded.recordings, vec![started.clone()]);
            assert_eq!(loaded.current, Some(started.clone()));
        }
        _ => panic!("Expected NatsReply::CameraRecordingLoadReply"),
    }
    let (reply, call) =
        NatsRequest::handle_camera_recording_stop(&mut store, true, RECORDING_SYNC_TEMPLATE);
    assert_eq!(
        call,
        Some(BusCall::StartUnit {
            name: format!("recording-sync@{}.service", started.id),
            mode: JobMode::Fail
        })
    );
    match reply {
        NatsReply::CameraRecordingStopReply(stopped) => {
            let recording = stopped.recording.unwrap();
            assert_eq!(recording.id, started.id);
            assert!(recording.capture_done);
            assert!(recording.recording_end.is_some());
        }
        _ => panic!("Expected NatsReply::CameraRecordingStopReply"),
    }
    match NatsRequest::handle_camera_recording_load(&store) {
        NatsReply::CameraRecordingLoadReply(loaded) => {
            assert_eq!(loaded.recordings.len(), 1);
            assert_eq!(loaded.current, None);
        }
        _ => panic!("Expected NatsReply::CameraRecordingLoadReply"),
    }
}

#[test]
fn plan_start_and_plan_stop() {
    let open = row("one", false, Some(1));
    assert_eq!(
        plan_start(Some(&open), "two".to_string(), "/video"),
        Err(RecordingStateError::AlreadyRecording)
    );
    let draft = plan_start(None, "two".to_string(), "/video/").unwrap();
    assert_eq!(draft.id, "two");
    assert_eq!(draft.dir, "/video/two");
    assert_eq!(draft.branch.name, "recording");
    assert_eq!(draft.branch.upstream, Some("h264".to_string()));
    assert_eq!(
        draft.branch.description,
        "interpipesrc name=recording_src listen-to=h264_sink accept-events=true accept-eos-event=true is-live=true allow-renegotiation=false ! h264parse ! splitmuxsink location=/video/two/%05d.mp4"
    );
    let inserted = draft.into_row(7);
    assert_eq!(inserted.recording_start, Some(7));
    assert!(!inserted.capture_done);
    assert!(!inserted.cloud_sync_done);

    assert_eq!(plan_stop(None, true, "recording-sync", 9), None);
    let plan = plan_stop(Some(&open), true, "recording-sync", 9).unwrap();
    assert_eq!(plan.recording_id, "one");
    assert_eq!(plan.end_of_stream, "recording");
    assert_eq!(plan.sync_unit, Some("recording-sync@one.service".to_string()));
    assert_eq!(
        plan.update,
        UpdateVideoRecording {
            capture_done: Some(true),
            recording_end: Some(9),
            ..no_changes()
        }
    );
    let plan = plan_stop(Some(&open), false, "recording-sync", 9).unwrap();
    assert_eq!(plan.sync_unit, None);
    assert_eq!(sync_unit_name("printnanny-sync", "x-1"), "printnanny-sync@x-1.service");
}

#[test]
fn current_is_the_open_row_that_started_last() {
    let rows = vec![
        row("a", true, Some(50)),
        row("b", false, None),
        row("c", false, Some(10)),
        row("d", false, Some(30)),
        row("e", false, Some(30)),
        row("f", true, Some(99)),
    ];
    assert_eq!(find_current(&rows), Some(3));
    assert_eq!(find_current(&rows[..2].to_vec()), Some(1));
    assert_eq!(find_current(&vec![row("a", true, Some(1))]), None);
    assert_eq!(find_current(&Vec::new()), None);
    assert_eq!(find_by_id(&rows, "d"), Some(3));
    assert_eq!(find_by_id(&rows, "z"), None);
}

#[test]
fn update_changes_the_named_fields_of_one_row() {
    let mut store = RecordingStore::new();
    store.insert(row("a", true, Some(1))).unwrap();
    store.insert(row("b", true, Some(2))).unwrap();
    let changes = UpdateVideoRecording {
        cloud_sync_done: Some(true),
        gcode_file_name: Some("part.gcode".to_string()),
        dir: Some("/other".to_string()),
        ..no_changes()
    };
    assert_eq!(store.update("b", &changes), Ok(()));
    let b = store.get_by_id("b").unwrap();
    assert!(b.cloud_sync_done);
    assert_eq!(b.gcode_file_name, Some("part.gcode".to_string()));
    assert_eq!(b.dir, "/other");
    assert_eq!(b.recording_start, Some(2));
    assert_eq!(store.get_by_id("a"), Some(&row("a", true, Some(1))));
    assert_eq!(store.update("zzz", &changes), Err(RecordingStateError::UnknownRecording));
}

#[test]
fn update_does_not_open_a_second_row() {
    let mut store = RecordingStore::new();
    store.insert(row("a", true, Some(1))).unwrap();
    store.insert(row("b", false, Some(2))).unwrap();
    let reopen = UpdateVideoRecording { capture_done: Some(false), ..no_changes() };
    assert_eq!(store.update("a", &reopen), Err(RecordingStateError::AlreadyRecording));
    assert!(store.get_by_id("a").unwrap().capture_done);
    // the open row may be told that it is open
    assert_eq!(store.update("b", &reopen), Ok(()));
    assert_eq!(
        store.insert(row("c", false, Some(3))),
        Err(RecordingStateError::AlreadyRecording)
    );
    assert_eq!(store.insert(row("a", true, None)), Err(RecordingStateError::DuplicateId));
}

#[test]
fn require_current_names_the_missing_recording() {
    let mut store = RecordingStore::new();
    assert_eq!(store.require_current(), Err(RecordingStateError::NoCurrentRecording));
    store.start_new("a".to_string(), "/video", 1).unwrap();
    assert_eq!(store.require_current().unwrap().id, "a");
}

fn part(id: &str, part: i32, recording: &str, sync_start: Option<i64>) -> VideoRecordingPart {
    VideoRecordingPart {
        id: id.to_string(),
        part,
        size: 1024,
        deleted: false,
        sync_start,
        sync_end: None,
        file_name: format!("{:05}.mp4", part),
        video_recording_id: recording.to_string(),
    }
}

#[test]
fn parts_by_recording_and_ready_for_sync() {
    let parts = vec![
        part("p0", 0, "a", Some(5)),
        part("p1", 1, "a", None),
        part("q0", 0, "b", None),
        part("p2", 2, "a", None),
    ];
    let ready = VideoRecordingPart::get_ready_for_cloud_sync(&parts);
    assert_eq!(ready, vec![parts[1].clone(), parts[2].clone(), parts[3].clone()]);
    let of_a = VideoRecordingPart::get_parts_by_video_recording_id(&parts, "a");
    assert_eq!(of_a, vec![parts[0].clone(), parts[1].clone(), parts[3].clone()]);
    assert!(VideoRecordingPart::get_parts_by_video_recording_id(&parts, "c").is_empty());
}

#[test]
fn parts_come_by_ascending_index() {
    let parts = vec![
        part("p3", 3, "a", None),
        part("q1", 1, "b", None),
        part("p1", 1, "a", None),
        part("p2", 2, "a", None),
        part("p1-again", 1, "a", None),
        part("p0", 0, "a", None),
    ];
    let of_a = VideoRecordingPart::get_parts_by_video_recording_id(&parts, "a");
    let ids: Vec<&str> = of_a.iter().map(|p| p.id.as_str()).collect();
    assert_eq!(ids, vec!["p0", "p1", "p1-again", "p2", "p3"]);
}

#[test]
fn rows_come_by_ascending_id() {
    let mut store = RecordingStore::new();
    for id in ["m", "b", "zz", "a", "ba", "B", ""] {
        store.insert(row(id, true, None)).unwrap();
    }
    let all = store.get_all();
    let ids: Vec<&str> = all.iter().map(|r| r.id.as_str()).collect();
    assert_eq!(ids, vec!["", "B", "a", "b", "ba", "m", "zz"]);
    let mut expected: Vec<String> = store.rows.iter().map(|r| r.id.clone()).collect();
    expected.sort();
    assert_eq!(ids, expected);
}

#[test]
fn recording_subjects_belong_to_the_recording_engine() {
    for subject in [
        Subject::CameraRecordingLoad,
        Subject::CameraRecordingStart,
        Subject::CameraRecordingStop,
    ] {
        assert_eq!(subject.engine(), Engine::Recording);
        assert_eq!(subject.work_class(), WorkClass::Blocking);
    }
}

fn cloud_recording(start: Option<&str>, end: Option<&str>) -> CloudVideoRecording {
    CloudVideoRecording {
        id: Some("abc".to_string()),
        capture_done: Some(true),
        cloud_sync_done: None,
        recording_start: start.map(|s| s.to_string()),
        recording_end: end.map(|s| s.to_string()),
    }
}

#[test]
fn change_from_a_record_of_the_cloud() {
    let record = cloud_recording(Some("2001-09-09T01:46:40Z"), Some("2001-09-09T03:46:40.555+02:00"));
    assert_eq!(
        VideoRecording::update_from_cloud(&record),
        Ok((
            "abc".to_string(),
            UpdateVideoRecording {
                capture_done: Some(true),
                cloud_sync_done: None,
                dir: None,
                recording_start: Some(1_000_000_000_000),
                recording_end: Some(1_000_000_000_555),
                gcode_file_name: None,
            }
        ))
    );
    let (_, update) = VideoRecording::update_from_cloud(&cloud_recording(None, None)).unwrap();
    assert_eq!(update.recording_start, None);
    assert_eq!(update.recording_end, None);
}

#[test]
fn a_record_without_id_or_with_a_time_that_is_none_gives_no_change() {
    let mut record = cloud_recording(None, None);
    record.id = None;
    assert_eq!(VideoRecording::update_from_cloud(&record), Err(CloudRecordError::MissingId));
    for bad in ["", "yesterday", "2001-09-09", "2001-13-09T01:46:40Z", "1000000000"] {
        assert_eq!(
            VideoRecording::update_from_cloud(&cloud_recording(Some(bad), None)),
            Err(CloudRecordError::InvalidTime)
        );
        assert_eq!(
            VideoRecording::update_from_cloud(&cloud_recording(None, Some(bad))),
            Err(CloudRecordError::InvalidTime)
        );
    }
    assert_eq!(
        VideoRecording::change_from_cloud(&cloud_recording(None, None), Some(None), Some(Some(1))),
        Err(CloudRecordError::InvalidTime)
    );
    assert_eq!(
        VideoRecording::change_from_cloud(&cloud_recording(None, None), Some(Some(5)), None)
            .map(|(_, update)| update.recording_start),
        Ok(Some(5))
    );
}

#[test]
fn change_of_a_part_from_a_record_of_the_cloud() {
    let record = CloudVideoRecordingPart {
        id: "p1".to_string(),
        part: 3,
        size: 2048,
        video_recording: "abc".to_string(),
        sync_start: Some("1970-01-01T00:00:01Z".to_string()),
        sync_end: None,
    };
    assert_eq!(
        VideoRecordingPart::update_from_cloud(&record),
        Ok(UpdateVideoRecordingPart {
            part: Some(3),
            size: Some(2048),
            deleted: None,
            sync_start: Some(1000),
            sync_end: None,
            file_name: None,
            video_recording_id: Some("abc".to_string()),
        })
    );
    let record = CloudVideoRecordingPart { sync_end: Some("soon".to_string()), ..record };
    assert_eq!(
        VideoRecordingPart::update_from_cloud(&record),
        Err(CloudRecordError::InvalidTime)
    );
}

#[test]
fn times_as_text() {
    assert_eq!(time_text(None), None);
    assert_eq!(time_text(Some(0)), Some("1970-01-01T00:00:00+00:00".to_string()));
    assert_eq!(
        time_text(Some(1_000_000_000_555)),
        Some("2001-09-09T01:46:40.555+00:00".to_string())
    );
    assert_eq!(time_text(Some(-1)), Some("1969-12-31T23:59:59.999+00:00".to_string()));
    assert_eq!(time_text(Some(i64::MAX)), None);
    assert_eq!(time_text(Some(i64::MIN)), None);
}

#[test]
fn reports_to_the_cloud() {
    let mut recording = row("abc", true, Some(1_000_000_000_000));
    recording.recording_end = Some(1_000_000_060_000);
    recording.gcode_file_name = Some("part.gcode".to_string());
    let req = recording.to_request();
    assert_eq!(req.id, Some("abc".to_string()));
    assert_eq!(req.capture_done, Some(true));
    assert_eq!(req.cloud_sync_done, Some(false));
    assert_eq!(req.combine_done, Some(false));
    assert_eq!(req.recording_start, Some("2001-09-09T01:46:40+00:00".to_string()));
    assert_eq!(req.recording_end, Some("2001-09-09T01:47:40+00:00".to_string()));
    assert_eq!(req.gcode_file_name, Some("part.gcode".to_string()));
    let req = part("p1", 4, "abc", Some(5)).to_request();
    assert_eq!(req.id, "p1");
    assert_eq!(req.part, 4);
    assert_eq!(req.size, 1024);
    assert_eq!(req.sync_start, None);
    assert_eq!(req.sync_end, None);
    assert_eq!(req.video_recording, "abc");
}

#[test]
fn stores_know_whether_they_are_in_order() {
    let mut store = RecordingStore::new();
    assert!(store.check());
    store.start_new("a".to_string(), "/video", 1).unwrap();
    assert!(store.check());
    store.rows.push(row("b", false, Some(2)));
    assert!(!store.check());
    store.rows.pop();
    store.rows.push(row("a", true, Some(2)));
    assert!(!store.check());
    store.rows.pop();
    store.rows.push(row("b", true, Some(2)));
    assert!(store.check());
}

#[test]
fn a_recording_goes_from_recording_to_captured_to_synced() {
    let mut store = RecordingStore::new();
    store.start_new("a".to_string(), "/video", 1).unwrap();
    assert_eq!(store.get_by_id("a").unwrap().state(), RecordingState::Recording);
    // not uploaded while it is being captured
    assert_eq!(store.mark_synced("a"), Err(RecordingStateError::AlreadyRecording));
    store.stop_at(true, RECORDING_SYNC_TEMPLATE, 2);
    assert_eq!(store.get_by_id("a").unwrap().state(), RecordingState::Captured);
    assert_eq!(store.mark_synced("a"), Ok(()));
    assert_eq!(store.get_by_id("a").unwrap().state(), RecordingState::Synced);
    assert!(store.get_by_id("a").unwrap().cloud_sync_done);
    assert_eq!(store.mark_synced("a"), Ok(()));
    assert_eq!(store.mark_synced("b"), Err(RecordingStateError::UnknownRecording));
}

#[test]
fn start_fails_for_one_reason_at_a_time() {
    // while a recording is open the answer is that one is open, also under
    // an id that is taken
    let mut store = RecordingStore::new();
    store.start_new("one".to_string(), "/video", 1).unwrap();
    let before = store.get_all();
    assert_eq!(
        store.start_new("one".to_string(), "/video", 2),
        Err(RecordingStateError::AlreadyRecording)
    );
    assert_eq!(
        store.start_new("two".to_string(), "/video", 2),
        Err(RecordingStateError::AlreadyRecording)
    );
    assert_eq!(store.get_all(), before);
    // while none is open, only a taken id is refused
    store.stop_at(false, RECORDING_SYNC_TEMPLATE, 3);
    let before = store.get_all();
    assert_eq!(
        store.start_new("one".to_string(), "/video", 4),
        Err(RecordingStateError::DuplicateId)
    );
    assert_eq!(store.get_all(), before);
    let started = store.start_new("two".to_string(), "/video", 4).unwrap();
    assert_eq!(started.id, "two");
    assert_eq!(started.dir, "/video/two");
    assert_eq!(started.recording_start, Some(4));
    let mut expected = before.clone();
    expected.push(started);
    assert_eq!(store.get_all(), expected);
}

#[test]
fn start_on_an_idle_store_adds_one_open_row() {
    let mut store = RecordingStore::new();
    store.rows.push(row("old", true, Some(1)));
    let started = store.start("/video").unwrap();
    assert_ne!(started.id, "old");
    assert_eq!(started.dir, format!("/video/{}", started.id));
    assert!(!started.capture_done);
    assert!(!started.cloud_sync_done);
    assert!(started.recording_start.is_some());
    assert_eq!(started.recording_end, None);
    assert_eq!(store.get_all().len(), 2);
    assert_eq!(store.get_current(), Some(&started));
    assert!(store.check());
}

#[test]
fn begin_recording_draws_an_id_unless_one_is_open() {
    let open = row("one", false, Some(1));
    assert_eq!(
        begin_recording(Some(&open), "/video"),
        Err(RecordingStateError::AlreadyRecording)
    );
    let first = begin_recording(None, "/video").unwrap();
    let second = begin_recording(None, "/video").unwrap();
    assert!(!first.id.is_empty());
    assert_ne!(first.id, second.id);
    assert_eq!(first.dir, format!("/video/{}", first.id));
    assert_eq!(first.branch.name, "recording");
    assert_eq!(first.branch.upstream, Some("h264".to_string()));
    assert!(first.branch.description.ends_with(&format!("location=/video/{}/%05d.mp4", first.id)));
    let id = first.id.clone();
    let dir = first.dir.clone();
    let inserted = first.into_row_now();
    assert_eq!(inserted.id, id);
    assert_eq!(inserted.dir, dir);
    assert!(!inserted.capture_done);
    assert!(!inserted.cloud_sync_done);
    assert!(inserted.recording_start.is_some());
    assert_eq!(inserted.recording_end, None);
    assert_eq!(inserted.gcode_file_name, None);
}

#[test]
fn end_recording_closes_the_open_row_now() {
    assert_eq!(end_recording(None, true, "recording-sync"), None);
    assert_eq!(end_recording(None, false, "recording-sync"), None);
    let open = row("one", false, Some(1));
    let plan = end_recording(Some(&open), true, "recording-sync").unwrap();
    assert_eq!(plan.recording_id, "one");
    assert_eq!(plan.end_of_stream, "recording");
    assert_eq!(plan.sync_unit, Some("recording-sync@one.service".to_string()));
    assert_eq!(plan.update.capture_done, Some(true));
    assert!(plan.update.recording_end.is_some());
    assert_eq!(
        UpdateVideoRecording { recording_end: None, ..plan.update },
        UpdateVideoRecording { capture_done: Some(true), ..no_changes() }
    );
    let plan = end_recording(Some(&open), false, "recording-sync").unwrap();
    assert_eq!(plan.sync_unit, None);
}

#[test]
fn mark_synced_fails_for_one_reason_at_a_time() {
    let mut store = RecordingStore::new();
    store.rows.push(row("done", true, Some(1)));
    store.rows.push(row("open", false, Some(2)));
    let before = store.get_all();
    assert_eq!(store.mark_synced("open"), Err(RecordingStateError::AlreadyRecording));
    assert_eq!(store.mark_synced("none"), Err(RecordingStateError::UnknownRecording));
    assert_eq!(store.get_all(), before);
    assert_eq!(store.mark_synced("done"), Ok(()));
    let after = store.get_all();
    let done = after.iter().find(|r| r.id == "done").unwrap();
    assert!(done.cloud_sync_done);
    assert!(done.capture_done);
    let open = after.iter().find(|r| r.id == "open").unwrap();
    assert_eq!(open, &row("open", false, Some(2)));
}
