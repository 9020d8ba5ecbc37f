//! The persistent, versioned local configuration.
use vstd::prelude::*;

use crate::text::{is_blank, is_blank_text, text_equals};
use crate::url::{parse_url, url_scheme};

verus! {

/// Revision of the configuration format written by this build.
pub const CONFIG_VERSION: u32 = 1;

/// Most devices that the configuration may remember.
pub const MAX_KNOWN_DEVICES: usize = 500;

/// Which release manifest the application follows.
#[derive(Clone, Copy, Debug, PartialEq, Eq, Structural)]
pub enum UpdateChannel {
    Stable,
    Beta,
}

impl Default for UpdateChannel {
    fn default() -> (channel: Self)
        ensures
            channel == UpdateChannel::Stable,
    {
        UpdateChannel::Stable
    }
}

/// Language of the interface.
#[derive(Clone, Copy, Debug, PartialEq, Eq, Structural)]
pub enum Language {
    Spanish,
    English,
}

impl Default for Language {
    fn default() -> (language: Self)
        ensures
            language == Language::Spanish,
    {
        Language::Spanish
    }
}

/// A remote device that the user gave a name.
#[derive(Clone, Debug, PartialEq, Eq)]
pub struct KnownDevice {
    pub public_id: String,
    pub display_name: String,
    pub public_key_fingerprint: Option<String>,
    pub last_seen_unix: Option<u64>,
}

/// The local configuration.
#[derive(Clone, Debug, PartialEq, Eq)]
pub struct AppConfig {
    pub version: u32,
    pub language: Language,
    pub update_channel: UpdateChannel,
    pub check_updates_at_startup: bool,
    pub relay_url: Option<String>,
    pub known_devices: Vec<KnownDevice>,
}

/// Why a configuration or a change to it was refused.
#[derive(Clone, Copy, Debug, PartialEq, Eq)]
pub enum ConfigError {
    /// The configuration was written by a newer version of the application.
    NewerVersion,
    /// More than `MAX_KNOWN_DEVICES` devices.
    TooManyDevices,
    /// The relay URL does not parse.
    MalformedRelayUrl,
    /// The relay URL uses neither HTTPS nor WSS.
    InsecureRelayUrl,
    /// A known device needs both an ID and a name.
    IncompleteDevice,
}

impl Default for AppConfig {
    fn default() -> (config: Self)
        ensures
            config.version == CONFIG_VERSION,
            config.language == Language::Spanish,
            config.update_channel == UpdateChannel::Stable,
            config.check_updates_at_startup,
            config.relay_url is None,
            config.known_devices@.len() == 0,
    {
        AppConfig {
            version: CONFIG_VERSION,
            language: Language::default(),
            update_channel: UpdateChannel::default(),
            check_updates_at_startup: true,
            relay_url: None,
            known_devices: Vec::new(),
        }
    }
}

/// What is wrong with a configuration, checked in this order.
pub open spec fn config_problem(
    version: u32,
    device_count: nat,
    relay_url: Option<String>,
) -> Option<ConfigError> {
    if version > CONFIG_VERSION {
        Some(ConfigError::NewerVersion)
    } else if device_count > MAX_KNOWN_DEVICES {
        Some(ConfigError::TooManyDevices)
    } else {
        match relay_url {
            Some(u) => match url_scheme(u@) {
                None => Some(ConfigError::MalformedRelayUrl),
                Some(scheme) => if scheme == "https"@ || scheme == "wss"@ {
                    None
                } else {
                    Some(ConfigError::InsecureRelayUrl)
                },
            },
            None => None,
        }
    }
}

/// `Ok` when there is no problem, else the problem.
pub open spec fn as_result(problem: Option<ConfigError>) -> Result<(), ConfigError> {
    match problem {
        Some(e) => Err(e),
        None => Ok(()),
    }
}

/// The first position of a device with this ID, if any.
pub open spec fn first_index_with_id(devices: Seq<KnownDevice>, id: Seq<char>) -> Option<int> {
    if exists|i: int| 0 <= i < devices.len() && #[trigger] devices[i].public_id@ == id {
        Some(
            choose|i: int|
                0 <= i < devices.len() && devices[i].public_id@ == id && forall|j: int|
                    0 <= j < i ==> #[trigger] devices[j].public_id@ != id,
        )
    } else {
        None
    }
}

/// The device list after adding `d`: it replaces the first device with its
/// ID, or is appended when there is none.
pub open spec fn devices_after(devices: Seq<KnownDevice>, d: KnownDevice) -> Seq<KnownDevice> {
    match first_index_with_id(devices, d.public_id@) {
        Some(i) => devices.update(i, d),
        None => devices.push(d),
    }
}

impl AppConfig {
    /// Refuses a configuration from a newer format, with too many devices,
    /// or with a relay URL that does not parse or uses neither HTTPS nor WSS.
    pub fn validate(&self) -> (r: Result<(), ConfigError>)
        ensures
            r == as_result(
                config_problem(self.version, self.known_devices@.len(), self.relay_url),
            ),
    {
        if self.version > CONFIG_VERSION {
            return Err(ConfigError::NewerVersion);
        }
        if self.known_devices.len() > MAX_KNOWN_DEVICES {
            return Err(ConfigError::TooManyDevices);
        }
        match &self.relay_url {
            Some(relay_url) => match parse_url(relay_url.as_str()) {
                None => Err(ConfigError::MalformedRelayUrl),
                Some(parts) => if text_equals(parts.scheme.as_str(), "https") || text_equals(
                    parts.scheme.as_str(),
                    "wss",
                ) {
                    Ok(())
                } else {
                    Err(ConfigError::InsecureRelayUrl)
                },
            },
            None => Ok(()),
        }
    }

    /// Remembers `device`, replacing the device with the same ID. A device
    /// needs an ID and a name that are not blank. The change stays even when
    /// the result then fails validation, which is returned.
    pub fn add_or_update_device(&mut self, device: KnownDevice) -> (r: Result<(), ConfigError>)
        ensures
            is_blank_text(device.public_id@) || is_blank_text(device.display_name@) ==> {
                &&& r == Err::<(), ConfigError>(ConfigError::IncompleteDevice)
                &&& *final(self) == *old(self)
            },
            !(is_blank_text(device.public_id@) || is_blank_text(device.display_name@)) ==> {
                &&& final(self).known_devices@ == devices_after(old(self).known_devices@, device)
                &&& final(self).version == old(self).version
                &&& final(self).language == old(self).language
                &&& final(self).update_channel == old(self).update_channel
                &&& final(self).check_updates_at_startup == old(self).check_updates_at_startup
                &&& final(self).relay_url == old(self).relay_url
                &&& r == as_result(
                    config_problem(
                        final(self).version,
                        final(self).known_devices@.len(),
                        final(self).relay_url,
                    ),
                )
            },
    {
        if is_blank(device.public_id.as_str()) || is_blank(device.display_name.as_str()) {
            return Err(ConfigError::IncompleteDevice);
        }
        let ghost devices = self.known_devices@;
        let ghost id = device.public_id@;
        let mut i: usize = 0;
        let n = self.known_devices.len();
        let mut found = false;
        while i < n
            invariant_except_break
                !found,
            invariant
                n == devices.len(),
                self.known_devices@ == devices,
                i <= n,
                id == device.public_id@,
                forall|j: int| 0 <= j < i ==> #[trigger] devices[j].public_id@ != id,
            ensures
                found ==> i < n && devices[i as int].public_id@ == id,
                !found ==> i == n,
            decreases n - i,
        {
            if self.known_devices[i].public_id == device.public_id {
                found = true;
                break;
            }
            i = i + 1;
        }
        if found {
            proof {
                assert(devices[i as int].public_id@ == id);
                let c = choose|c: int|
                    0 <= c < devices.len() && devices[c].public_id@ == id && forall|j: int|
                        0 <= j < c ==> #[trigger] devices[j].public_id@ != id;
                assert(c == i) by {
                    if c < i {
                        assert(devices[c].public_id@ != id);
                    } else if c > i {
                        assert(devices[i as int].public_id@ != id);
                    }
                }
            }
            self.known_devices.set(i, device);
        } else {
            self.known_devices.push(device);
        }
        self.validate()
    }
}

/// Adding a device keeps device IDs unique: afterwards exactly one
/// remembered device has its ID, and it is the device just added.
pub proof fn law_device_ids_stay_unique(devices: Seq<KnownDevice>, d: KnownDevice)
    requires
        forall|i: int, j: int|
            0 <= i < j < devices.len() ==> #[trigger] devices[i].public_id@
                != #[trigger] devices[j].public_id@,
    ensures
        ({
            let after = devices_after(devices, d);
            &&& forall|i: int, j: int|
                0 <= i < j < after.len() ==> #[trigger] after[i].public_id@
                    != #[trigger] after[j].public_id@
            &&& exists|i: int| 0 <= i < after.len() && after[i] == d
            &&& forall|i: int|
                0 <= i < after.len() && #[trigger] after[i].public_id@ == d.public_id@ ==> after[i]
                    == d
            &&& after.len() == devices.len() || after.len() == devices.len() + 1
        }),
{
    let after = devices_after(devices, d);
    match first_index_with_id(devices, d.public_id@) {
        Some(k) => {
            assert(after[k] == d);
            assert forall|i: int|
                0 <= i < after.len() && #[trigger] after[i].public_id@ == d.public_id@ implies after[i]
                == d by {
                if i != k {
                    assert(devices[i].public_id@ == devices[k].public_id@);
                    if i < k {
                        assert(devices[i].public_id@ != devices[k].public_id@);
                    } else {
                        assert(devices[k].public_id@ != devices[i].public_id@);
                    }
                }
            }
        },
        None => {
            assert(after[devices.len() as int] == d);
        },
    }
}

/// Only HTTPS and WSS relay URLs are accepted: for a configuration of a
/// known version with few enough devices, a relay URL that parses is
/// accepted exactly when its scheme is `https` or `wss`, and is otherwise
/// refused as insecure; one that does not parse is refused as malformed.
pub proof fn law_relay_url_needs_https_or_wss(version: u32, device_count: nat, relay_url: String)
    requires
        version <= 1,
        device_count <= 500,
    ensures
        url_scheme(relay_url@) is None ==> as_result(
            config_problem(version, device_count, Some(relay_url)),
        ) == Err::<(), ConfigError>(ConfigError::MalformedRelayUrl),
        url_scheme(relay_url@) matches Some(s) && (s == "https"@ || s == "wss"@) ==> as_result(
            config_problem(version, device_count, Some(relay_url)),
        ) == Ok::<(), ConfigError>(()),
        url_scheme(relay_url@) matches Some(s) && s != "https"@ && s != "wss"@ ==> as_result(
            config_problem(version, device_count, Some(relay_url)),
        ) == Err::<(), ConfigError>(ConfigError::InsecureRelayUrl),
        as_result(config_problem(version, device_count, None)) == Ok::<(), ConfigError>(()),
{
}

} // verus!
