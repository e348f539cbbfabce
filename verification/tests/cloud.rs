use printnanny::cloud::{
    check_license, next_check_task, registration_request, CheckTask, CheckTaskAction, CloudPi,
    LicenseError, LicensedDevice, Pi, PiUrls, PreferredDnsType, SbcEnum, TaskStatusType, UpdatePi,
};

fn cloud_pi(preferred_dns: Option<Option<PreferredDnsType>>) -> CloudPi {
    CloudPi {
        id: 7,
        last_boot: Some("2023-01-01T00:00:00Z".to_string()),
        hostname: "pi4".to_string(),
        created_dt: "2022-12-01T00:00:00Z".to_string(),
        urls: PiUrls {
            moonraker_api: "http://pi4.local/moonraker".to_string(),
            mission_control: "http://pi4.local/".to_string(),
            octoprint: "http://pi4.local/octoprint".to_string(),
            swupdate: "http://pi4.local/update".to_string(),
            syncthing: "http://pi4.local/syncthing".to_string(),
        },
        preferred_dns,
        octoprint_server_id: Some(3),
        system_info_id: None,
    }
}

#[test]
fn pi_row_from_the_cloud() {
    let pi = Pi::from(cloud_pi(Some(Some(PreferredDnsType::Tailscale))));
    assert_eq!(
        pi,
        Pi {
            id: 7,
            last_boot: Some("2023-01-01T00:00:00Z".to_string()),
            hostname: "pi4".to_string(),
            created_dt: "2022-12-01T00:00:00Z".to_string(),
            moonraker_api_url: "http://pi4.local/moonraker".to_string(),
            mission_control_url: "http://pi4.local/".to_string(),
            octoprint_url: "http://pi4.local/octoprint".to_string(),
            swupdate_url: "http://pi4.local/update".to_string(),
            syncthing_url: "http://pi4.local/syncthing".to_string(),
            preferred_dns: "tailscale".to_string(),
            octoprint_server_id: Some(3),
            system_info_id: None,
        }
    );
    assert_eq!(Pi::from(cloud_pi(None)).preferred_dns, "multicast");
    assert_eq!(Pi::from(cloud_pi(Some(None))).preferred_dns, "multicast");
}

#[test]
fn pi_update_from_the_cloud() {
    let update = UpdatePi::from(cloud_pi(None));
    assert_eq!(update.hostname, None);
    assert_eq!(update.created_dt, None);
    assert_eq!(update.last_boot, Some("2023-01-01T00:00:00Z".to_string()));
    assert_eq!(update.preferred_dns, Some("multicast".to_string()));
    assert_eq!(update.octoprint_url, Some("http://pi4.local/octoprint".to_string()));
    assert_eq!(update.octoprint_server_id, Some(3));
    assert_eq!(update.system_info_id, None);
}

#[test]
fn registration() {
    let req = registration_request(Some("pi4".to_string()));
    assert_eq!(req.sbc, Some(SbcEnum::Rpi4));
    assert_eq!(req.hostname, Some("pi4".to_string()));
    assert_eq!(req.fqdn, Some("pi4.local".to_string()));
    assert_eq!(req.favorite, Some(true));
    assert_eq!(req.setup_finished, Some(false));
    let req = registration_request(None);
    assert_eq!(req.hostname, Some("printnanny".to_string()));
    assert_eq!(req.fqdn, Some("printnanny.local".to_string()));
}

#[test]
fn licence_checks_in_order() {
    let active = LicensedDevice {
        id: 7,
        hostname: "pi4".to_string(),
        fingerprint: "ab:cd".to_string(),
    };
    assert_eq!(check_license(7, "pi4", "ab:cd", &active), Ok(()));
    assert_eq!(check_license(8, "other", "zz", &active), Err(LicenseError::DeviceMismatch));
    assert_eq!(check_license(7, "other", "zz", &active), Err(LicenseError::HostnameMismatch));
    assert_eq!(check_license(7, "pi4", "zz", &active), Err(LicenseError::FingerprintMismatch));
}

#[test]
fn check_task_decisions() {
    assert_eq!(next_check_task(None), CheckTaskAction::CreateStarted);
    let task = |last_status| Some(CheckTask { id: 5, last_status });
    assert_eq!(next_check_task(task(None)), CheckTaskAction::CreateStarted);
    assert_eq!(next_check_task(task(Some(TaskStatusType::Started))), CheckTaskAction::Nothing);
    assert_eq!(
        next_check_task(task(Some(TaskStatusType::Pending))),
        CheckTaskAction::MarkStarted(5)
    );
    for status in [TaskStatusType::Failed, TaskStatusType::Success, TaskStatusType::Timeout] {
        assert_eq!(next_check_task(task(Some(status))), CheckTaskAction::CreateStarted);
    }
}
