use printnanny::settings::{
    default_systemd_units, default_video_stream, GitSettings, NatsConfig, PrintNannyCloudProxy,
    PrintNannyPaths, PrintNannySettings, PrintNannySettingsError, SystemdUnit,
    PRINTNANNY_SETTINGS_FILENAME,
};
use printnanny::vcs::{SettingsApp, SettingsFormat};

#[test]
fn test_config_file_not_found() {
    let result = PrintNannySettings::check_file_from_env_var(
        Some(PRINTNANNY_SETTINGS_FILENAME.to_string()),
        false,
    );
    assert!(result.is_err());
    assert_eq!(
        result,
        Err(PrintNannySettingsError::ConfigFileNotFound {
            path: "PrintNannySettings.toml".to_string()
        })
    );
}

#[test]
fn a_settings_file_that_exists_or_is_not_named_is_fine() {
    assert_eq!(
        PrintNannySettings::check_file_from_env_var(Some("Local.toml".to_string()), true),
        Ok(())
    );
    assert_eq!(PrintNannySettings::check_file_from_env_var(None, false), Ok(()));
    assert_eq!(PrintNannySettings::check_file_from_env_var(None, true), Ok(()));
}

#[test]
fn test_paths() {
    let paths = PrintNannyPaths {
        settings_dir: "/opt/printnanny/".to_string(),
        state_dir: "/var/lib/custom".to_string(),
        ..PrintNannyPaths::default()
    };
    assert_eq!(paths.data(), "/var/lib/custom/data");
    assert_eq!(paths.user_confd(), "/opt/printnanny/");
    assert_eq!(paths.lib_confd(), "/var/lib/custom/printnanny.d");
    assert_eq!(paths.settings_file(), "/var/lib/custom/PrintNannySettings.toml");
    assert_eq!(
        paths.domain_file(SettingsApp::Octoprint),
        "/opt/printnanny/octoprint/octoprint.yaml"
    );
}

#[test]
fn defaults() {
    assert_eq!(
        NatsConfig::default(),
        NatsConfig { uri: "nats://localhost:4222".to_string(), require_tls: false }
    );
    assert_eq!(
        GitSettings::default(),
        GitSettings {
            remote: "https://github.com/bitsy-ai/printnanny-settings.git".to_string(),
            email: "robots@printnanny.ai".to_string(),
            name: "PrintNanny".to_string(),
            default_branch: "main".to_string(),
        }
    );
    let settings = PrintNannySettings::default();
    assert_eq!(settings.git, GitSettings::default());
    assert_eq!(settings.paths, PrintNannyPaths::default());
    assert_eq!(settings.video_stream, default_video_stream());
    assert!(settings.octoprint.enabled);
    assert!(!settings.mainsail.enabled);
    assert_eq!(settings.paths.state_dir, "/var/lib/printnanny");
    assert_eq!(
        settings.get_settings_file(),
        "/home/printnanny/.config/printnanny/settings/printnanny/printnanny.toml"
    );
    assert_eq!(settings.get_settings_format(), SettingsFormat::Toml);
}

#[test]
fn default_units() {
    assert_eq!(
        default_systemd_units(),
        vec![
            (
                "printnanny-vision.service".to_string(),
                SystemdUnit { unit: "printnanny-vision.service".to_string(), enabled: true }
            ),
            (
                "octoprint.service".to_string(),
                SystemdUnit { unit: "octoprint.service".to_string(), enabled: true }
            ),
            (
                "mainsail.service".to_string(),
                SystemdUnit { unit: "mansail.service".to_string(), enabled: false }
            ),
        ]
    );
}

#[test]
fn cloud_proxy_of_a_host() {
    assert_eq!(
        PrintNannyCloudProxy::for_host("pi4".to_string()),
        PrintNannyCloudProxy {
            hostname: "pi4".to_string(),
            base_path: "/printnanny-cloud".to_string(),
            url: "http://pi4/printnanny-cloud".to_string(),
        }
    );
    assert_eq!(
        PrintNannyCloudProxy::for_host_or_local(None).url,
        "http://localhost/printnanny-cloud"
    );
    let proxy = PrintNannyCloudProxy::for_host_or_local(Some("octopi".to_string()));
    assert_eq!(proxy.hostname, "octopi");
    assert_eq!(proxy.base_path, "/printnanny-cloud");
    assert_eq!(proxy.url, "http://octopi/printnanny-cloud");
}

#[test]
fn dashboard_address() {
    let settings = PrintNannySettings::default();
    assert_eq!(settings.dashboard_url(Some("pi4")), "http://pi4.local/");
    assert_eq!(settings.dashboard_url(None), "http://printnanny.local/");
}

#[test]
fn git_identity_for_the_repository() {
    let entries = GitSettings::default().init_local_git_config();
    let pairs: Vec<(&str, &str)> = entries.iter().map(|e| (e.key, e.value.as_str())).collect();
    assert_eq!(
        pairs,
        vec![
            ("user.email", "robots@printnanny.ai"),
            ("user.name", "PrintNanny"),
            ("init.defaultBranch", "main"),
        ]
    );
}

#[test]
fn factory_reset_removes_the_two_fragments() {
    let settings = PrintNannySettings::default();
    assert_eq!(
        settings.try_factory_reset(),
        vec![
            "/var/lib/printnanny/printnanny.d/cloud.json".to_string(),
            "/var/lib/printnanny/printnanny.d/systemd_units.json".to_string(),
        ]
    );
}
