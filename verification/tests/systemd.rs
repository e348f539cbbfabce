use printnanny::handlers::{Engine, WorkClass};
use printnanny::message::NatsRequest;
use printnanny::payload::{SystemdManagerGetUnitRequest, SystemdManagerUnitFilesRequest};
use printnanny::reply::NatsReply;
use printnanny::subject::Subject;
use printnanny::systemd::{
    changes_from_bus, disable_units_calls, enable_units_calls, sync_unit_call,
    translate_changes, unit_file_state_from_bus, unit_from_properties, unit_job_calls, BusCall,
    BusFault, JobMode, SystemdUnit, SystemdUnitActiveState, SystemdUnitChange,
    SystemdUnitChangeState, SystemdUnitFileState, SystemdUnitLoadState, UnitControlError,
    UnitFileChange, UnitJob, UnitProperties,
};

fn fault(message: &str) -> BusFault {
    BusFault { message: message.to_string() }
}

fn change(kind: &str, file: &str, destination: &str) -> UnitFileChange {
    UnitFileChange {
        kind: kind.to_string(),
        file: file.to_string(),
        destination: destination.to_string(),
    }
}

fn octoprint_files() -> SystemdManagerUnitFilesRequest {
    SystemdManagerUnitFilesRequest { files: vec!["octoprint.service".to_string()] }
}

fn properties(active: &str, load: &str, file: &str) -> UnitProperties {
    UnitProperties {
        id: "octoprint.service".to_string(),
        fragment_path: "/lib/systemd/system/octoprint.service".to_string(),
        active_state: active.to_string(),
        load_state: load.to_string(),
        unit_file_state: file.to_string(),
    }
}

#[test]
fn test_dbus_systemd_manager_get_unit_file_state_ok() {
    let request = SystemdManagerGetUnitRequest { unit_name: "octoprint.service".into() };
    for (word, state) in [
        ("enabled", SystemdUnitFileState::Enabled),
        ("disabled", SystemdUnitFileState::Disabled),
    ] {
        let reply =
            NatsRequest::handle_get_unit_file_state_request(&request, Ok(word.to_string()))
                .unwrap();
        if let NatsReply::SystemdManagerGetUnitFileStateReply(reply) = reply {
            assert!(
                reply.unit_file_state == SystemdUnitFileState::Enabled
                    || reply.unit_file_state == SystemdUnitFileState::Disabled
            );
            assert_eq!(reply.unit_file_state, state);
            assert_eq!(reply.request, request);
        } else {
            panic!("Expected NatsReply::SystemdManagerGetUnit")
        }
    }
}

#[test]
fn test_dbus_systemd_manager_get_unit_file_state_error() {
    let request = SystemdManagerGetUnitRequest { unit_name: "doesnotexist.service".into() };
    let reply = NatsRequest::handle_get_unit_file_state_request(
        &request,
        Err(fault("No such file or directory")),
    );
    assert!(reply.is_err());
    assert_eq!(
        reply,
        Err(UnitControlError::BusTransport("No such file or directory".to_string()))
    );
}

#[test]
fn test_dbus_systemd_manager_enable_disable_unit_ok() {
    // the unit is enabled already: enabling it changes nothing
    let request = octoprint_files();
    let changes = changes_from_bus(Ok(vec![])).unwrap();
    let natsreply = NatsRequest::handle_enable_units_request(&request, changes, Ok(())).unwrap();
    if let NatsReply::SystemdManagerEnableUnitsReply(reply) = natsreply {
        assert!(reply.changes.len() == 1 || reply.changes.len() == 0);
        assert_eq!(reply.changes, vec![]);
        assert_eq!(reply.request, request);
    } else {
        panic!("Expected NatsReply::SystemdManagerEnableUnitReply")
    }

    let changes = changes_from_bus(Ok(vec![change(
        "unlink",
        "/etc/systemd/system/multi-user.target.wants/octoprint.service",
        "",
    )]))
    .unwrap();
    let natsreply = NatsRequest::handle_disable_units_request(&request, changes, Ok(())).unwrap();
    if let NatsReply::SystemdManagerDisableUnitsReply(reply) = natsreply {
        assert_eq!(reply.changes.len(), 1);
        assert_eq!(reply.changes[0].change, SystemdUnitChangeState::Unlink);
        assert_eq!(
            reply.changes[0].file,
            "/etc/systemd/system/multi-user.target.wants/octoprint.service"
        );
    } else {
        panic!("Expected NatsReply::SystemdManagerDisableUnitReply")
    }
}

#[test]
fn test_dbus_systemd_manager_disable_unit_error() {
    let answer = changes_from_bus(Err(fault("Unit file doesnotexist.service does not exist.")));
    assert!(answer.is_err());
    assert_eq!(
        answer,
        Err(UnitControlError::BusTransport(
            "Unit file doesnotexist.service does not exist.".to_string()
        ))
    );
}

#[test]
fn test_dbus_systemd_manager_enable_unit_error() {
    let request = SystemdManagerUnitFilesRequest { files: vec!["doesnotexist.service".into()] };
    let natsreply =
        NatsRequest::handle_enable_units_request(&request, vec![], Err(fault("reload failed")));
    assert!(natsreply.is_err());
    assert_eq!(natsreply, Err(UnitControlError::BusTransport("reload failed".to_string())));
}

#[test]
fn test_dbus_systemd_get_unit_error() {
    let reply = NatsRequest::handle_get_unit_request(Err(fault("Unit not found")));
    assert!(reply.is_err());
    assert_eq!(reply, Err(UnitControlError::BusTransport("Unit not found".to_string())));
}

#[test]
fn test_dbus_systemd_restart_unit_error() {
    let reply = NatsRequest::handle_unit_job_request(
        UnitJob::Restart,
        Err(fault("Unit doesnotexist.service not found.")),
        Ok(properties("active", "loaded", "enabled")),
    );
    assert!(reply.is_err());
    assert_eq!(
        reply,
        Err(UnitControlError::BusTransport("Unit doesnotexist.service not found.".to_string()))
    );
}

#[test]
fn test_dbus_systemd_reload_unit_ok() {
    let reply = NatsRequest::handle_unit_job_request(
        UnitJob::Restart,
        Ok("/org/freedesktop/systemd1/job/42".to_string()),
        Ok(properties("active", "loaded", "enabled")),
    )
    .unwrap();
    if let NatsReply::SystemdManagerRestartUnitReply(reply) = reply {
        assert_eq!(reply.unit.load_state, SystemdUnitLoadState::Loaded);
        assert_eq!(reply.job, "/org/freedesktop/systemd1/job/42");
    } else {
        panic!("Expected NatsReply::SystemdManagerRestartUniReply")
    }
}

#[test]
fn test_dbus_systemd_start_unit_error() {
    let reply = NatsRequest::handle_unit_job_request(
        UnitJob::Start,
        Err(fault("Unit doesnotexist.service not found.")),
        Err(fault("not asked")),
    );
    assert!(reply.is_err());
    assert_eq!(
        reply,
        Err(UnitControlError::BusTransport("Unit doesnotexist.service not found.".to_string()))
    );
}

#[test]
fn test_dbus_systemd_start_unit_ok() {
    let reply = NatsRequest::handle_unit_job_request(
        UnitJob::Start,
        Ok("/org/freedesktop/systemd1/job/43".to_string()),
        Ok(properties("activating", "loaded", "enabled")),
    )
    .unwrap();
    if let NatsReply::SystemdManagerStartUnitReply(reply) = reply {
        assert_eq!(reply.unit.load_state, SystemdUnitLoadState::Loaded);
        assert_eq!(reply.unit.active_state, SystemdUnitActiveState::Activating);
    } else {
        panic!("Expected NatsReply::SystemdManagerStartUnitReply")
    }
}

#[test]
fn test_dbus_systemd_stop_unit_error() {
    let reply = NatsRequest::handle_unit_job_request(
        UnitJob::Stop,
        Ok("/org/freedesktop/systemd1/job/44".to_string()),
        Err(fault("Unit doesnotexist.service not found.")),
    );
    assert!(reply.is_err());
}

#[test]
fn test_dbus_systemd_stop_unit_ok() {
    let reply = NatsRequest::handle_unit_job_request(
        UnitJob::Stop,
        Ok("/org/freedesktop/systemd1/job/44".to_string()),
        Ok(properties("inactive", "loaded", "enabled")),
    )
    .unwrap();
    if let NatsReply::SystemdManagerStopUnitReply(reply) = reply {
        assert_eq!(reply.unit.load_state, SystemdUnitLoadState::Loaded);
    } else {
        panic!("Expected NatsReply::SystemdManagerStopUnitReply")
    }
}

#[test]
fn changes_are_translated_one_for_one() {
    let raw = vec![
        change("symlink", "/etc/a.service", "/lib/a.service"),
        change("unlink", "/etc/b.service", ""),
    ];
    assert_eq!(
        translate_changes(&raw),
        Ok(vec![
            SystemdUnitChange {
                change: SystemdUnitChangeState::Symlink,
                file: "/etc/a.service".to_string(),
                destination: "/lib/a.service".to_string(),
            },
            SystemdUnitChange {
                change: SystemdUnitChangeState::Unlink,
                file: "/etc/b.service".to_string(),
                destination: "".to_string(),
            },
        ])
    );
}

#[test]
fn an_unknown_kind_of_change_is_an_error() {
    let raw = vec![
        change("symlink", "/etc/a.service", "/lib/a.service"),
        change("mask", "/etc/b.service", ""),
    ];
    assert_eq!(translate_changes(&raw), Err(UnitControlError::UnknownChangeKind));
    assert_eq!(changes_from_bus(Ok(raw)), Err(UnitControlError::UnknownChangeKind));
    assert_eq!(SystemdUnitChangeState::from_text("Symlink"), None);
}

#[test]
fn unit_file_states_by_word() {
    let table = [
        ("enabled", SystemdUnitFileState::Enabled),
        ("enabled-runtime", SystemdUnitFileState::EnabledMinusRuntime),
        ("linked", SystemdUnitFileState::Linked),
        ("linked-runtime", SystemdUnitFileState::LinkedMinusRuntime),
        ("masked", SystemdUnitFileState::Masked),
        ("masked-runtime", SystemdUnitFileState::MaskedMinusRuntime),
        ("static", SystemdUnitFileState::Static),
        ("disabled", SystemdUnitFileState::Disabled),
        ("invalid", SystemdUnitFileState::Invalid),
    ];
    for (word, state) in table {
        assert_eq!(SystemdUnitFileState::from_text(word), Some(state));
        assert_eq!(unit_file_state_from_bus(Ok(word.to_string())), Ok(state));
    }
    assert_eq!(SystemdUnitFileState::from_text("indirect"), None);
    assert_eq!(
        unit_file_state_from_bus(Ok("indirect".to_string())),
        Err(UnitControlError::UnknownUnitState)
    );
    assert_eq!(
        unit_file_state_from_bus(Ok("".to_string())),
        Err(UnitControlError::UnknownUnitState)
    );
}

#[test]
fn unit_states_by_word() {
    assert_eq!(SystemdUnitActiveState::from_text("active"), Some(SystemdUnitActiveState::Active));
    assert_eq!(
        SystemdUnitActiveState::from_text("deactivating"),
        Some(SystemdUnitActiveState::Deactivating)
    );
    assert_eq!(SystemdUnitActiveState::from_text("failed"), Some(SystemdUnitActiveState::Failed));
    assert_eq!(
        SystemdUnitActiveState::from_text("inactive"),
        Some(SystemdUnitActiveState::Inactive)
    );
    assert_eq!(
        SystemdUnitActiveState::from_text("reloading"),
        Some(SystemdUnitActiveState::Reloading)
    );
    assert_eq!(SystemdUnitActiveState::from_text("maintenance"), None);
    assert_eq!(SystemdUnitLoadState::from_text("loaded"), Some(SystemdUnitLoadState::Loaded));
    assert_eq!(SystemdUnitLoadState::from_text("error"), Some(SystemdUnitLoadState::Error));
    assert_eq!(SystemdUnitLoadState::from_text("masked"), Some(SystemdUnitLoadState::Masked));
    assert_eq!(
        SystemdUnitLoadState::from_text("not-found"),
        Some(SystemdUnitLoadState::NotMinusFound)
    );
    assert_eq!(SystemdUnitLoadState::from_text("stub"), None);
}

#[test]
fn unit_from_its_properties() {
    assert_eq!(
        unit_from_properties(Ok(properties("active", "loaded", "enabled"))),
        Ok(SystemdUnit {
            id: "octoprint.service".to_string(),
            fragment_path: "/lib/systemd/system/octoprint.service".to_string(),
            active_state: SystemdUnitActiveState::Active,
            load_state: SystemdUnitLoadState::Loaded,
            unit_file_state: SystemdUnitFileState::Enabled,
        })
    );
    for p in [
        properties("running", "loaded", "enabled"),
        properties("active", "stub", "enabled"),
        properties("active", "loaded", "generated"),
    ] {
        assert_eq!(unit_from_properties(Ok(p)), Err(UnitControlError::UnknownUnitState));
    }
    assert_eq!(
        unit_from_properties(Err(fault("gone"))),
        Err(UnitControlError::BusTransport("gone".to_string()))
    );
    assert!(matches!(
        NatsRequest::handle_get_unit_request(Ok(properties("active", "loaded", "enabled"))),
        Ok(NatsReply::SystemdManagerGetUnitReply(_))
    ));
}

#[test]
fn enabling_and_disabling_reload_at_once() {
    let request = octoprint_files();
    assert_eq!(
        enable_units_calls(&request),
        vec![
            BusCall::EnableUnitFiles {
                files: vec!["octoprint.service".to_string()],
                runtime: false,
                force: false
            },
            BusCall::Reload,
        ]
    );
    assert_eq!(
        disable_units_calls(&request),
        vec![
            BusCall::DisableUnitFiles {
                files: vec!["octoprint.service".to_string()],
                runtime: false
            },
            BusCall::Reload,
        ]
    );
}

#[test]
fn jobs_replace_and_then_load_the_unit() {
    let name = "octoprint.service".to_string();
    assert_eq!(
        unit_job_calls(UnitJob::Start, "octoprint.service"),
        vec![
            BusCall::StartUnit { name: name.clone(), mode: JobMode::Replace },
            BusCall::LoadUnit { name: name.clone() },
        ]
    );
    assert_eq!(
        unit_job_calls(UnitJob::Stop, "octoprint.service"),
        vec![
            BusCall::StopUnit { name: name.clone(), mode: JobMode::Replace },
            BusCall::LoadUnit { name: name.clone() },
        ]
    );
    assert_eq!(
        unit_job_calls(UnitJob::Restart, "octoprint.service"),
        vec![
            BusCall::RestartUnit { name: name.clone(), mode: JobMode::Replace },
            BusCall::LoadUnit { name: name.clone() },
        ]
    );
    assert_eq!(
        sync_unit_call("recording-sync@abc.service"),
        BusCall::StartUnit { name: "recording-sync@abc.service".to_string(), mode: JobMode::Fail }
    );
    assert_eq!(JobMode::Replace.name(), "replace");
    assert_eq!(JobMode::Fail.name(), "fail");
}

#[test]
fn unit_subjects_belong_to_the_unit_adapter_and_run_inline() {
    for subject in [
        Subject::DisableUnit,
        Subject::EnableUnit,
        Subject::GetUnit,
        Subject::GetUnitFileState,
        Subject::RestartUnit,
        Subject::StartUnit,
        Subject::StopUnit,
    ] {
        assert_eq!(subject.engine(), Engine::Units);
        assert_eq!(subject.work_class(), WorkClass::Inline);
    }
}
