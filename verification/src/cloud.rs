//! What the device keeps of the cloud's records, and the checks it makes on
//! them.
use crate::text::{join2, same_text};
use vstd::prelude::*;

verus! {

/// How the device's name is resolved.
#[derive(Clone, Copy, PartialEq, Eq, Structural, Debug)]
pub enum PreferredDnsType {
    Multicast,
    Tailscale,
}

impl PreferredDnsType {
    /// The word for the preference in the device's row.
    pub open spec fn spec_name(self) -> Seq<char> {
        match self {
            PreferredDnsType::Multicast => "multicast"@,
            PreferredDnsType::Tailscale => "tailscale"@,
        }
    }

    /// The word for the preference in the device's row.
    pub fn name(self) -> (name: &'static str)
        ensures
            name@ == self.spec_name(),
    {
        match self {
            PreferredDnsType::Multicast => "multicast",
            PreferredDnsType::Tailscale => "tailscale",
        }
    }
}

/// The addresses under which the device's services are reached.
#[derive(Debug, PartialEq, Eq)]
pub struct PiUrls {
    pub moonraker_api: String,
    pub mission_control: String,
    pub octoprint: String,
    pub swupdate: String,
    pub syncthing: String,
}

/// The device as the cloud describes it.
#[derive(Debug, PartialEq, Eq)]
pub struct CloudPi {
    pub id: i32,
    pub last_boot: Option<String>,
    pub hostname: String,
    pub created_dt: String,
    pub urls: PiUrls,
    /// The outer level tells whether network settings exist, the inner
    /// whether they state a preference.
    pub preferred_dns: Option<Option<PreferredDnsType>>,
    pub octoprint_server_id: Option<i32>,
    pub system_info_id: Option<i32>,
}

/// The row that the device keeps of itself.
#[derive(Debug, PartialEq, Eq)]
pub struct Pi {
    pub id: i32,
    pub last_boot: Option<String>,
    pub hostname: String,
    pub created_dt: String,
    pub moonraker_api_url: String,
    pub mission_control_url: String,
    pub octoprint_url: String,
    pub swupdate_url: String,
    pub syncthing_url: String,
    pub preferred_dns: String,
    pub octoprint_server_id: Option<i32>,
    pub system_info_id: Option<i32>,
}

/// The fields of the device's row to change; an absent field stays.
#[derive(Debug, PartialEq, Eq)]
pub struct UpdatePi {
    pub last_boot: Option<String>,
    pub hostname: Option<String>,
    pub created_dt: Option<String>,
    pub moonraker_api_url: Option<String>,
    pub mission_control_url: Option<String>,
    pub octoprint_url: Option<String>,
    pub swupdate_url: Option<String>,
    pub syncthing_url: Option<String>,
    pub preferred_dns: Option<String>,
    pub octoprint_server_id: Option<i32>,
    pub system_info_id: Option<i32>,
}

/// The preference that holds: multicast unless the network settings state
/// another.
pub open spec fn effective_dns(preferred: Option<Option<PreferredDnsType>>) -> PreferredDnsType {
    match preferred {
        Some(Some(p)) => p,
        _ => PreferredDnsType::Multicast,
    }
}

/// The view of a text that may be absent.
pub open spec fn text_view(text: Option<String>) -> Option<Seq<char>> {
    match text {
        Some(t) => Some(t@),
        None => None,
    }
}

fn dns_of(preferred: Option<Option<PreferredDnsType>>) -> (r: PreferredDnsType)
    ensures
        r == effective_dns(preferred),
{
    match preferred {
        Some(Some(p)) => p,
        _ => PreferredDnsType::Multicast,
    }
}

impl Pi {
    /// The row for the device as the cloud describes it.
    pub fn from(obj: CloudPi) -> (pi: Pi)
        ensures
            pi.id == obj.id,
            text_view(pi.last_boot) == text_view(obj.last_boot),
            pi.hostname@ == obj.hostname@,
            pi.created_dt@ == obj.created_dt@,
            pi.moonraker_api_url@ == obj.urls.moonraker_api@,
            pi.mission_control_url@ == obj.urls.mission_control@,
            pi.octoprint_url@ == obj.urls.octoprint@,
            pi.swupdate_url@ == obj.urls.swupdate@,
            pi.syncthing_url@ == obj.urls.syncthing@,
            pi.preferred_dns@ == effective_dns(obj.preferred_dns).spec_name(),
            pi.octoprint_server_id == obj.octoprint_server_id,
            pi.system_info_id == obj.system_info_id,
    {
        let preferred_dns = dns_of(obj.preferred_dns).name().to_owned();
        Pi {
            id: obj.id,
            last_boot: obj.last_boot,
            hostname: obj.hostname,
            created_dt: obj.created_dt,
            moonraker_api_url: obj.urls.moonraker_api,
            mission_control_url: obj.urls.mission_control,
            octoprint_url: obj.urls.octoprint,
            swupdate_url: obj.urls.swupdate,
            syncthing_url: obj.urls.syncthing,
            preferred_dns,
            octoprint_server_id: obj.octoprint_server_id,
            system_info_id: obj.system_info_id,
        }
    }
}

impl UpdatePi {
    /// The change that brings the device's row up to what the cloud
    /// describes. The name of the host and the day of creation stay as the
    /// row has them.
    pub fn from(obj: CloudPi) -> (update: UpdatePi)
        ensures
            text_view(update.last_boot) == text_view(obj.last_boot),
            update.hostname is None,
            update.created_dt is None,
            text_view(update.moonraker_api_url) == Some(obj.urls.moonraker_api@),
            text_view(update.mission_control_url) == Some(obj.urls.mission_control@),
            text_view(update.octoprint_url) == Some(obj.urls.octoprint@),
            text_view(update.swupdate_url) == Some(obj.urls.swupdate@),
            text_view(update.syncthing_url) == Some(obj.urls.syncthing@),
            text_view(update.preferred_dns) == Some(
                effective_dns(obj.preferred_dns).spec_name(),
            ),
            update.octoprint_server_id == obj.octoprint_server_id,
            update.system_info_id == obj.system_info_id,
    {
        let preferred_dns = dns_of(obj.preferred_dns).name().to_owned();
        UpdatePi {
            last_boot: obj.last_boot,
            hostname: None,
            created_dt: None,
            moonraker_api_url: Some(obj.urls.moonraker_api),
            mission_control_url: Some(obj.urls.mission_control),
            octoprint_url: Some(obj.urls.octoprint),
            swupdate_url: Some(obj.urls.swupdate),
            syncthing_url: Some(obj.urls.syncthing),
            preferred_dns: Some(preferred_dns),
            octoprint_server_id: obj.octoprint_server_id,
            system_info_id: obj.system_info_id,
        }
    }
}

/// The board that the device is built on.
#[derive(Clone, Copy, PartialEq, Eq, Structural, Debug)]
pub enum SbcEnum {
    Rpi4,
}

/// What the device tells the cloud when it registers.
#[derive(Debug, PartialEq, Eq)]
pub struct PiRequest {
    pub sbc: Option<SbcEnum>,
    pub hostname: Option<String>,
    pub fqdn: Option<String>,
    pub favorite: Option<bool>,
    pub setup_finished: Option<bool>,
}

/// Registers the device under the name of its host, or as `printnanny`
/// where that name is not known: a favourite whose setup is not finished,
/// found in the local domain.
pub fn registration_request(hostname: Option<String>) -> (req: PiRequest)
    ensures
        req.sbc == Some(SbcEnum::Rpi4),
        req.favorite == Some(true),
        req.setup_finished == Some(false),
        req.hostname matches Some(h) && h@ == match hostname {
            Some(name) => name@,
            None => "printnanny"@,
        },
        req.fqdn matches Some(f) && f@ == req.hostname->0@ + ".local"@,
{
    let hostname = match hostname {
        Some(name) => name,
        None => "printnanny".to_owned(),
    };
    let fqdn = join2(hostname.as_str(), ".local");
    PiRequest {
        sbc: Some(SbcEnum::Rpi4),
        hostname: Some(hostname),
        fqdn: Some(fqdn),
        favorite: Some(true),
        setup_finished: Some(false),
    }
}

/// The device that a licence was issued to, as the cloud knows it.
#[derive(Debug, PartialEq, Eq)]
pub struct LicensedDevice {
    pub id: i32,
    pub hostname: String,
    pub fingerprint: String,
}

/// Why a licence does not belong to this device.
#[derive(Clone, Copy, PartialEq, Eq, Structural, Debug)]
pub enum LicenseError {
    /// The licence was issued to a device of another id.
    DeviceMismatch,
    /// The licence was issued to a host of another name.
    HostnameMismatch,
    /// The licence on the device is not the one that is active.
    FingerprintMismatch,
}

/// What checking a licence gives: the first of the three comparisons that
/// fails, in the order id, host name, fingerprint.
pub open spec fn license_verdict(
    device_id: i32,
    hostname: Seq<char>,
    fingerprint: Seq<char>,
    active: LicensedDevice,
) -> Result<(), LicenseError> {
    if device_id != active.id {
        Err(LicenseError::DeviceMismatch)
    } else if hostname != active.hostname@ {
        Err(LicenseError::HostnameMismatch)
    } else if fingerprint != active.fingerprint@ {
        Err(LicenseError::FingerprintMismatch)
    } else {
        Ok(())
    }
}

/// Checks that the licence on this device is the active one of this very
/// device.
pub fn check_license(device_id: i32, hostname: &str, fingerprint: &str, active: &LicensedDevice) -> (r:
    Result<(), LicenseError>)
    ensures
        r == license_verdict(device_id, hostname@, fingerprint@, *active),
{
    if device_id != active.id {
        Err(LicenseError::DeviceMismatch)
    } else if !same_text(hostname, active.hostname.as_str()) {
        Err(LicenseError::HostnameMismatch)
    } else if !same_text(fingerprint, active.fingerprint.as_str()) {
        Err(LicenseError::FingerprintMismatch)
    } else {
        Ok(())
    }
}

/// How far a task has come.
#[derive(Clone, Copy, PartialEq, Eq, Structural, Debug)]
pub enum TaskStatusType {
    Failed,
    Pending,
    Started,
    Success,
    Timeout,
}

/// The last task that checked the licence, and its last status if it has
/// one.
#[derive(Clone, Copy, PartialEq, Eq, Structural, Debug)]
pub struct CheckTask {
    pub id: i32,
    pub last_status: Option<TaskStatusType>,
}

/// What is to be done so that a task that checks the licence is running.
#[derive(Clone, Copy, PartialEq, Eq, Structural, Debug)]
pub enum CheckTaskAction {
    /// One is running already.
    Nothing,
    /// The task of this id waits to be acknowledged: mark it started.
    MarkStarted(i32),
    /// Create a task and mark it started.
    CreateStarted,
}

/// Decides what to do about the task that checks the licence: a task that
/// runs is left alone, one that is pending is acknowledged, and in every
/// other case a new one is created.
pub fn next_check_task(last_check_task: Option<CheckTask>) -> (action: CheckTaskAction)
    ensures
        action == match last_check_task {
            Some(task) => match task.last_status {
                Some(TaskStatusType::Started) => CheckTaskAction::Nothing,
                Some(TaskStatusType::Pending) => CheckTaskAction::MarkStarted(task.id),
                _ => CheckTaskAction::CreateStarted,
            },
            None => CheckTaskAction::CreateStarted,
        },
{
    match last_check_task {
        Some(task) => match task.last_status {
            Some(TaskStatusType::Started) => CheckTaskAction::Nothing,
            Some(TaskStatusType::Pending) => CheckTaskAction::MarkStarted(task.id),
            _ => CheckTaskAction::CreateStarted,
        },
        None => CheckTaskAction::CreateStarted,
    }
}

} // verus!
