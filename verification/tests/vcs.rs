use printnanny::handlers::{Engine, WorkClass};
use printnanny::message::NatsRequest;
use printnanny::payload::{SettingsFileApplyRequest, SettingsFileRevertRequest};
use printnanny::reply::NatsReply;
use printnanny::subject::Subject;
use printnanny::vcs::{
    check_commit_id, commit_message, file_changed, parent_dir, save_steps, sort_newest_first,
    step_error, GitCommit, GitFault, SaveAction, SaveRun, SettingsApp, SettingsFile,
    SettingsFormat, SettingsRepository, VcsError, VcsStep,
};

const OCTOPRINT_MODIFIED_SETTINGS: &str = r#"
        ---
        server:
          commands:
            systemShutdownCommand: sudo shutdown -h now
            systemRestartCommand: sudo shutdown -r now
            serverRestartCommand: sudo systemctl restart octoprint.service
        
        api:
          disabled: true
        
        system:
          actions:
            - name: Start PrintNanny Cam
              action: printnanny_cam_start
              command: sudo systemctl restart printnanny-vision.service
            - name: Stop PrintNanny Cam
              action: printnanny_cam_stop
              command: sudo systemctl stop printnanny-vision.service
        events:
          subscriptions:
            - command: sudo systemctl start printnanny-vision.service
              debug: false
              event: plugin_octoprint_nanny_vision_start
              type: system
              enabled: true
            - command: sudo systemctl stop printnanny-vision.service
              enabled: true
              debug: false
              event: plugin_octoprint_nanny_vision_stop
              type: system
        
        webcam:
          stream: /printnanny-hls/playlist.m3u8
        "#;

const MOONRAKER_MODIFIED_SETTINGS: &str = r#"
        # https://github.com/Arksine/moonraker/blob/master/docs/installation.md
        [server]
        host: 0.0.0.0
        port: 7125
        klippy_uds_address: /var/run/klipper/klippy.sock
        
        [machine]
        validate_service: false
        provider: systemd_dbus
        
        [authorization]
        cors_domains:
            https://my.mainsail.xyz
            http://my.mainsail.xyz
            http://*.local
            http://*.lan
        
        trusted_clients:
            10.0.0.0/8
            127.0.0.0/8
            169.254.0.0/16
            172.16.0.0/12
            192.168.0.0/16
            FE80::/10
            ::1/128
        
        # enables partial support of Octoprint API
        [octoprint_compat]
        
        # enables moonraker to track and store print history.
        [history]
        "#;

fn make_settings_repo() -> SettingsRepository {
    let mut repo = SettingsRepository::new("PrintNanny", "robots@printnanny.ai");
    repo.init(1).unwrap();
    for app in [
        SettingsApp::Printnanny,
        SettingsApp::Octoprint,
        SettingsApp::Moonraker,
        SettingsApp::Klipper,
    ] {
        repo.save_and_commit(app, "original", None, 2).unwrap();
    }
    repo
}

fn apply_load_revert(app: SettingsApp, modified_content: &str) {
    let mut repo = make_settings_repo();
    let original = repo.to_payload(app).unwrap();
    let mut modified = original.clone();
    modified.content = modified_content.to_string();
    let git_head_commit = repo.get_git_head_commit().unwrap().oid;
    let git_commit_msg = "testing".to_string();

    let request_apply = SettingsFileApplyRequest {
        file: modified.clone(),
        git_head_commit,
        git_commit_msg: git_commit_msg.clone(),
    };
    let reply = NatsRequest::handle_settings_apply(&mut repo, &request_apply, 10).unwrap();
    let revert_commit = repo.get_git_head_commit().unwrap().oid;
    if let NatsReply::SettingsFileApplyReply(reply) = reply {
        assert_eq!(reply.git_history[0].message, git_commit_msg);
        assert_eq!(reply.git_head_commit, revert_commit);
        assert_eq!(reply.file.content, modified.content);
    } else {
        panic!("Expected NatsReply::SettingsFileApplyReply")
    }

    // load the settings we just applied
    let reply = NatsRequest::handle_settings_load(&repo).unwrap();
    let reply = if let NatsReply::SettingsFileLoadReply(reply) = reply {
        assert_eq!(reply.git_history[0].message, git_commit_msg);
        assert_eq!(reply.git_head_commit, revert_commit);
        reply
    } else {
        panic!("Expected NatsReply::SettingsFileLoadReply")
    };

    // revert the settings
    let commits_before = repo.commits.len();
    let request_revert = SettingsFileRevertRequest {
        git_commit: revert_commit,
        app,
        files: reply.files,
    };
    let reply = NatsRequest::handle_settings_revert(&mut repo, &request_revert, 11).unwrap();
    if let NatsReply::SettingsFileRevertReply(reply) = reply {
        assert_eq!(reply.files[0].content, original.content);
        assert_eq!(reply.app, app);
    } else {
        panic!("Expected NatsReply::SettingsFileRevertReply")
    }
    assert_eq!(repo.commits.len(), commits_before + 1);
}

#[test]
fn test_printnanny_settings_apply_load_revert() {
    apply_load_revert(SettingsApp::Printnanny, "[paths]\nlog_dir = \"/path/to/testing\"\n");
}

#[test]
fn test_octoprint_settings_apply_load_revert() {
    apply_load_revert(SettingsApp::Octoprint, OCTOPRINT_MODIFIED_SETTINGS);
}

#[test]
fn test_moonraker_settings_apply_load_revert() {
    apply_load_revert(SettingsApp::Moonraker, MOONRAKER_MODIFIED_SETTINGS);
}

#[test]
fn apply_then_load_returns_the_content() {
    let mut repo = make_settings_repo();
    for app in [
        SettingsApp::Printnanny,
        SettingsApp::Octoprint,
        SettingsApp::Moonraker,
        SettingsApp::Klipper,
    ] {
        let applied = repo
            .save_and_commit(app, "content of the file", Some("msg".to_string()), 5)
            .unwrap();
        assert_eq!(applied.file.content, "content of the file");
        assert_eq!(repo.to_payload(app).unwrap().content, "content of the file");
        assert_eq!(repo.read_settings(app).unwrap(), "content of the file");
    }
}

#[test]
fn revert_of_head_restores_the_first_content_and_adds_a_commit() {
    let mut repo = SettingsRepository::new("PrintNanny", "robots@printnanny.ai");
    repo.init(0).unwrap();
    let app = SettingsApp::Klipper;
    repo.save_and_commit(app, "a", Some("m1".to_string()), 1).unwrap();
    let second = repo.save_and_commit(app, "b", Some("m2".to_string()), 2).unwrap();
    let log_before: Vec<String> = repo.git_log().unwrap().iter().map(|c| c.oid.clone()).collect();
    assert_eq!(log_before.len(), 3);
    let head = repo.git_revert(&second.git_head_commit, 3).unwrap();
    assert_eq!(repo.to_payload(app).unwrap().content, "a");
    let log_after: Vec<String> = repo.git_log().unwrap().iter().map(|c| c.oid.clone()).collect();
    assert_eq!(log_after.len(), 4);
    assert_eq!(log_after[0], head);
    assert_eq!(&log_after[1..], &log_before[..]);
    assert_eq!(repo.get_git_head_commit().unwrap().message, "Revert \"m2\"");
    assert_eq!(repo.get_git_head_commit().unwrap().ts, 3);
}

#[test]
fn commit_ids_count_from_one() {
    let mut repo = SettingsRepository::new("PrintNanny", "robots@printnanny.ai");
    repo.init(0).unwrap();
    assert_eq!(repo.get_git_head_commit().unwrap().oid, "1");
    assert_eq!(repo.get_git_head_commit().unwrap().message, "Initial commit");
    assert_eq!(
        repo.get_git_head_commit().unwrap().header,
        "author PrintNanny <robots@printnanny.ai>"
    );
    let applied = repo.save_and_commit(SettingsApp::Printnanny, "x", None, 1).unwrap();
    assert_eq!(applied.git_head_commit, "2");
    assert_eq!(repo.git_head_commit_parent_count(), Ok(1));
}

#[test]
fn generated_commit_message_counts_the_parents_of_the_head() {
    let mut repo = SettingsRepository::new("PrintNanny", "robots@printnanny.ai");
    repo.init(0).unwrap();
    // the first commit has no parent
    assert_eq!(repo.git_head_commit_parent_count(), Ok(0));
    assert_eq!(
        repo.get_git_commit_message(SettingsApp::Printnanny).unwrap(),
        "printnanny.toml - revision #1"
    );
    repo.save_and_commit(SettingsApp::Octoprint, "x", None, 1).unwrap();
    assert_eq!(repo.get_git_head_commit().unwrap().message, "octoprint.yaml - revision #1");
    repo.save_and_commit(SettingsApp::Moonraker, "x", None, 2).unwrap();
    assert_eq!(repo.get_git_head_commit().unwrap().message, "moonraker.conf - revision #2");
    assert_eq!(commit_message(SettingsApp::Klipper, None, 1), "printer.cfg - revision #2");
    assert_eq!(commit_message(SettingsApp::Klipper, None, 41), "printer.cfg - revision #42");
    assert_eq!(
        commit_message(SettingsApp::Klipper, Some("mine".to_string()), 1),
        "mine"
    );
}

#[test]
fn history_lists_the_commits_that_touch_the_file_newest_first() {
    let mut repo = SettingsRepository::new("PrintNanny", "robots@printnanny.ai");
    repo.init(0).unwrap();
    repo.save_and_commit(SettingsApp::Octoprint, "o1", Some("o1".to_string()), 1).unwrap();
    repo.save_and_commit(SettingsApp::Klipper, "k1", Some("k1".to_string()), 2).unwrap();
    repo.save_and_commit(SettingsApp::Octoprint, "o2", Some("o2".to_string()), 3).unwrap();
    // a commit that leaves the file as it is does not touch it
    repo.save_and_commit(SettingsApp::Octoprint, "o2", Some("same".to_string()), 4).unwrap();
    let messages: Vec<String> = repo
        .get_rev_list(SettingsApp::Octoprint)
        .unwrap()
        .iter()
        .map(|c| c.message.clone())
        .collect();
    assert_eq!(messages, vec!["o2", "o1"]);
    let messages: Vec<String> = repo
        .get_rev_list(SettingsApp::Klipper)
        .unwrap()
        .iter()
        .map(|c| c.message.clone())
        .collect();
    assert_eq!(messages, vec!["k1"]);
    assert!(repo.get_rev_list(SettingsApp::Moonraker).unwrap().is_empty());
    let messages: Vec<String> = repo.git_log().unwrap().iter().map(|c| c.message.clone()).collect();
    assert_eq!(messages, vec!["same", "o2", "k1", "o1", "Initial commit"]);
}

#[test]
fn a_repository_without_commits_is_uninitialized() {
    let mut repo = SettingsRepository::new("PrintNanny", "robots@printnanny.ai");
    assert_eq!(repo.get_git_head_commit(), Err(VcsError::Uninitialized));
    assert_eq!(repo.git_head_commit_parent_count(), Err(VcsError::Uninitialized));
    assert_eq!(
        repo.save_and_commit(SettingsApp::Printnanny, "x", None, 1).map(|_| ()),
        Err(VcsError::Uninitialized)
    );
    assert_eq!(repo.git_revert("1", 1), Err(VcsError::Uninitialized));
    assert_eq!(repo.git_revert("not an id", 1), Err(VcsError::Uninitialized));
    for app in [
        SettingsApp::Printnanny,
        SettingsApp::Octoprint,
        SettingsApp::Moonraker,
        SettingsApp::Klipper,
    ] {
        assert_eq!(repo.get_rev_list(app), Err(VcsError::Uninitialized));
    }
    assert_eq!(repo.git_log(), Err(VcsError::Uninitialized));
    assert_eq!(
        repo.save_with_hooks(SettingsApp::Printnanny, "x", None, &vec![], 1).map(|_| ()),
        Err(VcsError::Uninitialized)
    );
    assert!(matches!(
        NatsRequest::handle_settings_load(&repo),
        Err(VcsError::Uninitialized)
    ));
    assert!(repo.commits.is_empty());
}

#[test]
fn init_is_for_the_first_commit_only() {
    let mut repo = SettingsRepository::new("PrintNanny", "robots@printnanny.ai");
    assert_eq!(repo.init(0), Ok(()));
    assert_eq!(repo.init(1), Err(VcsError::GitOperation(GitFault::AlreadyInitialized)));
    assert_eq!(repo.commits.len(), 1);
}

#[test]
fn load_of_a_file_that_does_not_exist_is_an_io_error() {
    let mut repo = SettingsRepository::new("PrintNanny", "robots@printnanny.ai");
    repo.init(0).unwrap();
    assert_eq!(repo.to_payload(SettingsApp::Klipper), Err(VcsError::Io));
    assert_eq!(repo.read_settings(SettingsApp::Klipper), Err(VcsError::Io));
    assert!(matches!(NatsRequest::handle_settings_load(&repo), Err(VcsError::Io)));
}

#[test]
fn revert_refuses_what_is_no_commit_id() {
    let mut repo = make_settings_repo();
    let before = repo.commits.len();
    for bad in ["", "xyz", "12g", "00000000000000000000000000000000000000000"] {
        assert_eq!(
            repo.git_revert(bad, 9),
            Err(VcsError::GitOperation(GitFault::InvalidCommitId))
        );
    }
    assert_eq!(
        repo.git_revert("abcdef", 9),
        Err(VcsError::GitOperation(GitFault::UnknownCommit))
    );
    assert_eq!(
        repo.git_revert("0000000000000000000000000000000000000000", 9),
        Err(VcsError::GitOperation(GitFault::UnknownCommit))
    );
    assert_eq!(repo.commits.len(), before);
}

#[test]
fn commit_id_is_one_to_forty_hex_digits() {
    assert!(check_commit_id("a"));
    assert!(check_commit_id("0123456789abcdefABCDEF"));
    assert!(check_commit_id("0000000000000000000000000000000000000000"));
    assert!(!check_commit_id(""));
    assert!(!check_commit_id("00000000000000000000000000000000000000000"));
    assert!(!check_commit_id("12 4"));
    assert!(!check_commit_id("g"));
}

#[test]
fn revert_of_a_commit_whose_file_changed_since_conflicts() {
    let mut repo = SettingsRepository::new("PrintNanny", "robots@printnanny.ai");
    repo.init(0).unwrap();
    let app = SettingsApp::Printnanny;
    repo.save_and_commit(app, "a", None, 1).unwrap();
    let b = repo.save_and_commit(app, "b", None, 2).unwrap();
    repo.save_and_commit(app, "c", None, 3).unwrap();
    let before = repo.commits.len();
    assert_eq!(repo.git_revert(&b.git_head_commit, 4), Err(VcsError::RevertConflict));
    assert_eq!(repo.commits.len(), before);
    assert_eq!(repo.to_payload(app).unwrap().content, "c");
}

#[test]
fn revert_leaves_other_files_alone() {
    let mut repo = SettingsRepository::new("PrintNanny", "robots@printnanny.ai");
    repo.init(0).unwrap();
    repo.save_and_commit(SettingsApp::Printnanny, "p1", None, 1).unwrap();
    let k = repo.save_and_commit(SettingsApp::Klipper, "k1", None, 2).unwrap();
    repo.save_and_commit(SettingsApp::Printnanny, "p2", None, 3).unwrap();
    // the commit that created the klipper file is undone: the file is gone
    repo.git_revert(&k.git_head_commit, 4).unwrap();
    assert_eq!(repo.to_payload(SettingsApp::Klipper), Err(VcsError::Io));
    assert_eq!(repo.to_payload(SettingsApp::Printnanny).unwrap().content, "p2");
    assert_eq!(repo.commits.len(), 5);
}

#[test]
fn settings_file_of_a_domain() {
    let repo = make_settings_repo();
    assert_eq!(
        repo.to_payload(SettingsApp::Octoprint).unwrap(),
        SettingsFile {
            app: SettingsApp::Octoprint,
            content: "original".to_string(),
            file_name: "octoprint/octoprint.yaml".to_string(),
            file_format: SettingsFormat::Yaml,
        }
    );
    assert_eq!(SettingsApp::Printnanny.get_settings_file(), "printnanny/printnanny.toml");
    assert_eq!(SettingsApp::Printnanny.get_settings_format(), SettingsFormat::Toml);
    assert_eq!(SettingsApp::Moonraker.get_settings_file(), "moonraker/moonraker.conf");
    assert_eq!(SettingsApp::Moonraker.get_settings_format(), SettingsFormat::Ini);
    assert_eq!(SettingsApp::Klipper.get_settings_file(), "klipper/printer.cfg");
    assert_eq!(SettingsApp::Klipper.get_settings_format(), SettingsFormat::Ini);
}

#[test]
fn names_of_domains_and_formats() {
    for app in [
        SettingsApp::Printnanny,
        SettingsApp::Octoprint,
        SettingsApp::Moonraker,
        SettingsApp::Klipper,
    ] {
        assert_eq!(SettingsApp::from_name(app.name()), Some(app));
    }
    assert_eq!(SettingsApp::from_name("mainsail"), None);
    for format in [
        SettingsFormat::Json,
        SettingsFormat::Toml,
        SettingsFormat::Yaml,
        SettingsFormat::Ini,
    ] {
        assert_eq!(SettingsFormat::from_name(format.name()), Some(format));
    }
    assert_eq!(SettingsFormat::from_name("xml"), None);
}

#[test]
fn save_steps_in_order() {
    let steps = save_steps("/home/printnanny/settings", SettingsApp::Octoprint, "content", None, 1);
    assert_eq!(
        steps,
        vec![
            VcsStep::PreSave(SettingsApp::Octoprint),
            VcsStep::CreateDirAll { path: "/home/printnanny/settings/octoprint".to_string() },
            VcsStep::WriteFile {
                path: "/home/printnanny/settings/octoprint/octoprint.yaml".to_string(),
                content: "content".to_string(),
            },
            VcsStep::StageAll,
            VcsStep::Commit { message: "octoprint.yaml - revision #2".to_string() },
            VcsStep::PostSave(SettingsApp::Octoprint),
        ]
    );
    assert_eq!(step_error(&steps[1]), VcsError::Io);
    assert_eq!(step_error(&steps[2]), VcsError::Io);
    assert_eq!(step_error(&steps[3]), VcsError::GitOperation(GitFault::Refused));
    assert_eq!(step_error(&steps[4]), VcsError::GitOperation(GitFault::Refused));
}

#[test]
fn parent_dir_exact_values() {
    assert_eq!(parent_dir("/a/b/c.toml"), "/a/b");
    assert_eq!(parent_dir("c.toml"), "");
    assert_eq!(parent_dir("/c.toml"), "");
    assert_eq!(parent_dir("a/"), "a");
}

#[test]
fn settings_subjects_belong_to_the_settings_engine_and_block() {
    for subject in [
        Subject::SettingsFileLoad,
        Subject::SettingsFileApply,
        Subject::SettingsFileRevert,
        Subject::CameraSettingsApply,
        Subject::CameraSettingsLoad,
    ] {
        assert_eq!(subject.engine(), Engine::Settings);
        assert_eq!(subject.work_class(), WorkClass::Blocking);
    }
}

#[test]
fn repositories_know_whether_they_are_in_order() {
    let mut repo = SettingsRepository::new("PrintNanny", "robots@printnanny.ai");
    assert!(repo.check());
    repo.init(0).unwrap();
    repo.save_and_commit(SettingsApp::Klipper, "k", None, 1).unwrap();
    assert!(repo.check());
    // a working copy that the head commit did not record
    repo.worktree.klipper = Some("edited".to_string());
    assert!(!repo.check());
    repo.worktree.klipper = Some("k".to_string());
    assert!(repo.check());
    // a commit that does not bear the id of its place
    repo.commits[1].info.oid = "7".to_string();
    assert!(!repo.check());
    repo.commits[1].info.oid = "2".to_string();
    repo.commits[1].parent_count = 2;
    assert!(!repo.check());
}

fn commit(oid: &str, ts: i64) -> GitCommit {
    GitCommit {
        oid: oid.to_string(),
        header: "author PrintNanny <robots@printnanny.ai>".to_string(),
        message: format!("commit {oid}"),
        ts,
    }
}

fn ids(commits: &[GitCommit]) -> Vec<&str> {
    commits.iter().map(|c| c.oid.as_str()).collect()
}

#[test]
fn history_is_ordered_by_the_time_of_the_commit() {
    let mut repo = SettingsRepository::new("PrintNanny", "robots@printnanny.ai");
    repo.init(0).unwrap();
    let app = SettingsApp::Octoprint;
    repo.save_and_commit(app, "a", Some("at ten".to_string()), 10).unwrap();
    // a clock that went back: the commit is made later and bears an earlier time
    let applied = repo.save_and_commit(app, "b", Some("at five".to_string()), 5).unwrap();
    repo.save_and_commit(app, "c", Some("at seven".to_string()), 7).unwrap();
    let history = repo.get_rev_list(app).unwrap();
    let messages: Vec<&str> = history.iter().map(|c| c.message.as_str()).collect();
    assert_eq!(messages, vec!["at ten", "at seven", "at five"]);
    for pair in history.windows(2) {
        assert!(pair[0].ts >= pair[1].ts);
    }
    let times: Vec<i64> = repo.git_log().unwrap().iter().map(|c| c.ts).collect();
    assert_eq!(times, vec![10, 7, 5, 0]);
    // the reply to the second save held the history as it stood then
    let messages: Vec<&str> = applied.git_history.iter().map(|c| c.message.as_str()).collect();
    assert_eq!(messages, vec!["at ten", "at five"]);
    // the head is the commit made last, whatever its time
    assert_eq!(repo.get_git_head_commit().unwrap().message, "at seven");
}

#[test]
fn history_holds_each_commit_once() {
    let repo = make_settings_repo();
    let log = repo.git_log().unwrap();
    assert_eq!(log.len(), repo.commits.len());
    let mut seen = ids(&log);
    seen.sort();
    seen.dedup();
    assert_eq!(seen.len(), log.len());
    // commits of one time: the one made later comes first
    assert_eq!(ids(&log), vec!["5", "4", "3", "2", "1"]);
}

#[test]
fn sort_newest_first_exact_values() {
    assert_eq!(sort_newest_first(&vec![]), vec![]);
    let made = vec![commit("1", 3), commit("2", 9), commit("3", 3), commit("4", 1), commit("5", 9)];
    let sorted = sort_newest_first(&made);
    assert_eq!(ids(&sorted), vec!["5", "2", "3", "1", "4"]);
    assert_eq!(
        sorted.iter().map(|c| c.ts).collect::<Vec<i64>>(),
        vec![9, 9, 3, 3, 1]
    );
    assert_eq!(sorted[4], commit("4", 1));
    // what was made in the order of time comes out reversed
    let made = vec![commit("1", 1), commit("2", 2), commit("3", 3)];
    assert_eq!(ids(&sort_newest_first(&made)), vec!["3", "2", "1"]);
}

#[test]
fn a_failing_hook_before_the_save_leaves_everything_as_it_was() {
    let mut repo = make_settings_repo();
    let app = SettingsApp::Octoprint;
    let commits_before = repo.commits.len();
    let head_before = repo.get_git_head_commit().unwrap();
    let r = repo.save_with_hooks(
        app,
        "changed",
        Some("msg".to_string()),
        &vec![Err(VcsError::Io)],
        9,
    );
    assert_eq!(r, Err(VcsError::Io));
    assert_eq!(repo.commits.len(), commits_before);
    assert_eq!(repo.get_git_head_commit().unwrap(), head_before);
    assert_eq!(repo.to_payload(app).unwrap().content, "original");
    assert!(repo.check());
}

#[test]
fn a_failing_hook_after_the_save_keeps_the_commit() {
    let mut repo = make_settings_repo();
    let app = SettingsApp::Klipper;
    let commits_before = repo.commits.len();
    let outcomes = vec![Ok(()), Ok(()), Ok(()), Ok(()), Ok(()), Err(VcsError::Io)];
    let r = repo.save_with_hooks(app, "changed", Some("msg".to_string()), &outcomes, 9);
    assert_eq!(r, Err(VcsError::Io));
    assert_eq!(repo.commits.len(), commits_before + 1);
    assert_eq!(repo.get_git_head_commit().unwrap().message, "msg");
    assert_eq!(repo.to_payload(app).unwrap().content, "changed");
    assert!(repo.check());
}

#[test]
fn a_save_whose_hooks_succeed_is_a_save() {
    let mut with_hooks = make_settings_repo();
    let mut plain = make_settings_repo();
    let app = SettingsApp::Moonraker;
    let a = with_hooks
        .save_with_hooks(app, "changed", None, &vec![Ok(()); 6], 9)
        .unwrap();
    let b = plain.save_and_commit(app, "changed", None, 9).unwrap();
    assert_eq!(a, b);
    assert_eq!(with_hooks.commits.len(), plain.commits.len());
    assert_eq!(with_hooks.git_log().unwrap(), plain.git_log().unwrap());
    assert_eq!(a.file.content, "changed");
    assert_eq!(a.git_head_commit, "6");
    assert_eq!(a.git_history[0].message, "moonraker.conf - revision #2");
    // outcomes that are not given count as success
    let mut short = make_settings_repo();
    let c = short.save_with_hooks(app, "changed", None, &vec![], 9).unwrap();
    assert_eq!(c, b);
}

#[test]
fn a_save_that_fails_midway_keeps_what_was_written() {
    let mut repo = make_settings_repo();
    let app = SettingsApp::Printnanny;
    let commits_before = repo.commits.len();
    // the commit itself is refused: the file is written, the log is as it was
    let outcomes = vec![
        Ok(()),
        Ok(()),
        Ok(()),
        Ok(()),
        Err(VcsError::GitOperation(GitFault::Refused)),
    ];
    let r = repo.save_with_hooks(app, "changed", None, &outcomes, 9);
    assert_eq!(r, Err(VcsError::GitOperation(GitFault::Refused)));
    assert_eq!(repo.commits.len(), commits_before);
    assert_eq!(repo.to_payload(app).unwrap().content, "changed");
    // the file cannot be written: nothing has changed
    let mut repo = make_settings_repo();
    let outcomes = vec![Ok(()), Ok(()), Err(VcsError::Io)];
    assert_eq!(repo.save_with_hooks(app, "changed", None, &outcomes, 9), Err(VcsError::Io));
    assert_eq!(repo.commits.len(), commits_before);
    assert_eq!(repo.to_payload(app).unwrap().content, "original");
}

#[test]
fn run_steps_takes_the_steps_in_order() {
    let mut repo = make_settings_repo();
    let app = SettingsApp::Octoprint;
    let steps = save_steps("", app, "next", Some("by steps".to_string()), 1);
    assert_eq!(repo.run_steps(app, &steps, &vec![], 12), None);
    assert_eq!(repo.to_payload(app).unwrap().content, "next");
    assert_eq!(repo.get_git_head_commit().unwrap().message, "by steps");
    assert_eq!(repo.get_git_head_commit().unwrap().ts, 12);
    assert_eq!(repo.commits.len(), 6);
    // no steps, nothing done
    let before = repo.commits.len();
    assert_eq!(repo.run_steps(app, &vec![], &vec![Err(VcsError::Io)], 13), None);
    assert_eq!(repo.commits.len(), before);
    // the first failure is the one handed back
    let outcomes = vec![Ok(()), Err(VcsError::Io), Err(VcsError::RevertConflict)];
    assert_eq!(repo.run_steps(app, &steps, &outcomes, 14), Some(VcsError::Io));
    assert_eq!(repo.commits.len(), before);
}

#[test]
fn a_save_run_names_each_step_once_and_stops_at_a_failure() {
    let mut run = SaveRun::begin(3);
    assert!(run.check());
    assert_eq!(run.next_action(), SaveAction::Step(0));
    // asking again changes nothing
    assert_eq!(run.next_action(), SaveAction::Step(0));
    run.record(Ok(()));
    assert_eq!(run.next_action(), SaveAction::Step(1));
    run.record(Ok(()));
    assert_eq!(run.next_action(), SaveAction::Step(2));
    run.record(Ok(()));
    assert_eq!(run.next_action(), SaveAction::Finished);
    run.record(Err(VcsError::Io));
    assert_eq!(run.next_action(), SaveAction::Finished);
    assert_eq!(run, SaveRun { total: 3, done: 3, failure: None });

    let mut run = SaveRun::begin(3);
    run.record(Ok(()));
    run.record(Err(VcsError::Io));
    assert_eq!(run.next_action(), SaveAction::Aborted(VcsError::Io));
    run.record(Ok(()));
    run.record(Err(VcsError::RevertConflict));
    assert_eq!(run.next_action(), SaveAction::Aborted(VcsError::Io));
    assert_eq!(run, SaveRun { total: 3, done: 1, failure: Some(VcsError::Io) });
    assert!(run.check());

    assert_eq!(SaveRun::begin(0).next_action(), SaveAction::Finished);
    assert!(!SaveRun { total: 1, done: 2, failure: None }.check());
    assert!(!SaveRun { total: 1, done: 1, failure: Some(VcsError::Io) }.check());
}

#[test]
fn file_changed_compares_presence_and_text() {
    let a = Some("a".to_string());
    let b = Some("b".to_string());
    assert!(!file_changed(&None, &None));
    assert!(!file_changed(&a, &Some("a".to_string())));
    assert!(file_changed(&a, &b));
    assert!(file_changed(&None, &a));
    assert!(file_changed(&a, &None));
    assert!(!file_changed(&Some(String::new()), &Some(String::new())));
    assert!(file_changed(&None, &Some(String::new())));
}

#[test]
fn revert_looks_for_the_commit_before_it_judges_the_id() {
    let mut repo = make_settings_repo();
    let app = SettingsApp::Klipper;
    let head = repo.save_and_commit(app, "k2", Some("m".to_string()), 3).unwrap();
    assert_eq!(head.git_head_commit, "6");
    let reverted = repo.git_revert("6", 4).unwrap();
    assert_eq!(reverted, "7");
    assert_eq!(repo.to_payload(app).unwrap().content, "original");
    assert_eq!(repo.get_git_head_commit().unwrap().message, "Revert \"m\"");
    assert_eq!(repo.git_head_commit_parent_count(), Ok(1));
    // a long log: every id is found again
    let mut repo = SettingsRepository::new("PrintNanny", "robots@printnanny.ai");
    repo.init(0).unwrap();
    for i in 0..120 {
        let text = if i % 2 == 0 { "even" } else { "odd" };
        repo.save_and_commit(app, text, None, i).unwrap();
    }
    let head = repo.get_git_head_commit().unwrap().oid;
    assert_eq!(head, "121");
    assert_eq!(repo.git_revert(&head, 200), Ok("122".to_string()));
    assert_eq!(repo.to_payload(app).unwrap().content, "even");
}
