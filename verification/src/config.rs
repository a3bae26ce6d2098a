//! Configuration records and the policies resolved from them.
//!
//! The process reads its configuration file and hands these plain records to
//! the library; the library resolves the optional fields into the effective
//! scan policy and bus settings.

use vstd::prelude::*;
use crate::text::{hex_digit_upper, hex_digit_upper_of, push_char};

verus! {

/// Default for `ScanConfig::device_seen_debounce_seconds`.
pub const DEFAULT_DEVICE_SEEN_DEBOUNCE_SECONDS: u64 = 60;

/// Default for `ScanConfig::device_trigger_debounce_seconds`.
pub const DEFAULT_DEVICE_TRIGGER_DEBOUNCE_SECONDS: u64 = 120;

/// Default for `ScanConfig::interscan_delay_seconds`.
pub const DEFAULT_INTERSCAN_DELAY_SECONDS: u64 = 5;

/// Default for `ScanConfig::presence_timeout_seconds`.
pub const DEFAULT_PRESENCE_TIMEOUT_SECONDS: u64 = 120;

/// A manufacturer a configured device may declare, for coarse
/// advertisement filtering by company identifier.
#[derive(Clone, Copy, Debug)]
pub enum Manufacturer {
    Apple,
    Google,
}

/// The Bluetooth SIG company identifiers assigned to a manufacturer.
pub open spec fn spec_manufacturer_ids(m: Manufacturer) -> Seq<u16> {
    match m {
        Manufacturer::Apple => seq![0x004Cu16],
        Manufacturer::Google => seq![0x018Eu16, 0x00E0u16],
    }
}

impl Manufacturer {
    /// The Bluetooth SIG company identifiers assigned to this manufacturer.
    pub fn company_ids(&self) -> (r: Vec<u16>)
        ensures
            r@ == spec_manufacturer_ids(*self),
    {
        let mut ids: Vec<u16> = Vec::new();
        match self {
            Manufacturer::Apple => {
                ids.push(0x004C);
                proof {
                    assert(ids@ =~= seq![0x004Cu16]);
                }
            }
            Manufacturer::Google => {
                ids.push(0x018E);
                ids.push(0x00E0);
                proof {
                    assert(ids@ =~= seq![0x018Eu16, 0x00E0u16]);
                }
            }
        }
        ids
    }
}

/// A hardware address, held as its six raw bytes.
#[derive(Clone, Copy, Debug)]
pub struct MacAddr {
    pub octets: [u8; 6],
}

/// One byte as two upper-case hexadecimal characters.
pub open spec fn spec_hex_byte(b: u8) -> Seq<char> {
    seq![hex_digit_upper(b as int / 16), hex_digit_upper(b as int % 16)]
}

/// The canonical text of a hardware address's first `n` bytes:
/// upper-case hexadecimal byte pairs separated by colons.
pub open spec fn spec_mac_prefix(octets: Seq<u8>, n: int) -> Seq<char>
    recommends
        0 <= n <= octets.len(),
    decreases n,
{
    if n <= 0 {
        Seq::empty()
    } else if n == 1 {
        spec_hex_byte(octets[0])
    } else {
        spec_mac_prefix(octets, n - 1) + seq![':'] + spec_hex_byte(octets[n - 1])
    }
}

/// The canonical text of a hardware address.
pub open spec fn spec_mac_string(octets: Seq<u8>) -> Seq<char> {
    spec_mac_prefix(octets, octets.len() as int)
}

impl MacAddr {
    /// Format the address in its canonical form, upper-case hexadecimal
    /// byte pairs separated by colons.
    pub fn to_hex_string(&self) -> (r: String)
        ensures
            r@ == spec_mac_string(self.octets@),
    {
        let mut out = String::new();
        let mut i: usize = 0;
        while i < 6
            invariant
                i <= 6,
                self.octets@.len() == 6,
                out@ == spec_mac_prefix(self.octets@, i as int),
            decreases 6 - i,
        {
            if i > 0 {
                push_char(&mut out, ':');
            }
            let b = self.octets[i];
            push_char(&mut out, hex_digit_upper_of(b / 16));
            push_char(&mut out, hex_digit_upper_of(b % 16));
            proof {
                assert(out@ =~= spec_mac_prefix(self.octets@, i as int + 1));
            }
            i = i + 1;
        }
        out
    }
}

/// The scan timing section of the configuration file; every field is
/// optional and falls back to its default.
#[derive(Clone, Copy, Debug)]
pub struct ScanConfig {
    pub device_seen_debounce_seconds: Option<u64>,
    pub device_trigger_debounce_seconds: Option<u64>,
    pub interscan_delay_seconds: Option<u64>,
    pub presence_timeout_seconds: Option<u64>,
}

impl ScanConfig {
    /// A configuration with every field unset, resolving to the defaults.
    pub fn unset() -> (r: ScanConfig)
        ensures
            r.device_seen_debounce_seconds is None,
            r.device_trigger_debounce_seconds is None,
            r.interscan_delay_seconds is None,
            r.presence_timeout_seconds is None,
    {
        ScanConfig {
            device_seen_debounce_seconds: None,
            device_trigger_debounce_seconds: None,
            interscan_delay_seconds: None,
            presence_timeout_seconds: None,
        }
    }
}

/// The effective scan policy: every duration resolved, in seconds,
/// immutable for the life of the process.
#[derive(Clone, Copy, Debug, PartialEq, Eq, Structural)]
pub struct ScanPolicy {
    /// A device seen at most this recently is skipped by an arrival sweep.
    pub device_seen_debounce: u64,
    /// Minimum spacing between trigger-driven sweeps.
    pub device_trigger_debounce: u64,
    /// Spacing between two probes within one sweep.
    pub interscan_delay: u64,
    /// Delay until a present device is re-verified.
    pub presence_timeout: u64,
}

/// The policy a scan configuration resolves to, every unset duration
/// filled with its default.
pub open spec fn spec_policy(cfg: ScanConfig) -> ScanPolicy {
    ScanPolicy {
        device_seen_debounce: cfg.device_seen_debounce_seconds.unwrap_or(
            DEFAULT_DEVICE_SEEN_DEBOUNCE_SECONDS,
        ),
        device_trigger_debounce: cfg.device_trigger_debounce_seconds.unwrap_or(
            DEFAULT_DEVICE_TRIGGER_DEBOUNCE_SECONDS,
        ),
        interscan_delay: cfg.interscan_delay_seconds.unwrap_or(DEFAULT_INTERSCAN_DELAY_SECONDS),
        presence_timeout: cfg.presence_timeout_seconds.unwrap_or(DEFAULT_PRESENCE_TIMEOUT_SECONDS),
    }
}

impl ScanPolicy {
    /// Resolve a scan configuration into the effective policy, filling
    /// every unset duration with its default.
    pub fn from_config(cfg: &ScanConfig) -> (r: ScanPolicy)
        ensures
            r == spec_policy(*cfg),
    {
        ScanPolicy {
            device_seen_debounce: cfg.device_seen_debounce_seconds.unwrap_or(
                DEFAULT_DEVICE_SEEN_DEBOUNCE_SECONDS,
            ),
            device_trigger_debounce: cfg.device_trigger_debounce_seconds.unwrap_or(
                DEFAULT_DEVICE_TRIGGER_DEBOUNCE_SECONDS,
            ),
            interscan_delay: cfg.interscan_delay_seconds.unwrap_or(
                DEFAULT_INTERSCAN_DELAY_SECONDS,
            ),
            presence_timeout: cfg.presence_timeout_seconds.unwrap_or(
                DEFAULT_PRESENCE_TIMEOUT_SECONDS,
            ),
        }
    }
}

/// One configured device: its hardware address, its display name, and
/// optionally the manufacturer to match advertisements against.
#[derive(Clone, Debug)]
pub struct BleDevice {
    pub address: MacAddr,
    pub name: String,
    pub manufacturer: Option<Manufacturer>,
}

/// The message-bus section of the configuration file.
#[derive(Clone, Debug)]
pub struct MqttConfig {
    pub host: String,
    pub port: Option<u16>,
    pub username: Option<String>,
    pub password: Option<String>,
    pub publisher_id: Option<String>,
    pub topic_path: Option<String>,
    pub keep_alive_seconds: Option<u64>,
}

/// The whole configuration file: bus settings, the device registry and
/// the scan timings.
#[derive(Clone, Debug)]
pub struct AppConfig {
    pub mqtt: MqttConfig,
    pub devices: Option<Vec<BleDevice>>,
    pub scan: Option<ScanConfig>,
}

/// Default client identifier on the message bus.
pub const DEFAULT_PUBLISHER_ID: &'static str = "monitor-rs";

/// Default topic prefix on the message bus.
pub const DEFAULT_TOPIC_PATH: &'static str = "monitor";

/// Default for `MqttConfig::port`.
pub const DEFAULT_MQTT_PORT: u16 = 1883;

/// Default for `MqttConfig::keep_alive_seconds`.
pub const DEFAULT_KEEP_ALIVE_SECONDS: u64 = 5;

/// The effective message-bus settings: every optional field of
/// `MqttConfig` resolved to a value.
#[derive(Clone, Debug)]
pub struct MqttSettings {
    pub host: String,
    pub port: u16,
    /// Username and password, set only where the configuration gives both.
    pub credentials: Option<(String, String)>,
    pub publisher_id: String,
    pub topic_path: String,
    pub keep_alive_seconds: u64,
}

/// The effective client identifier for a configuration.
pub open spec fn spec_publisher_id(cfg: MqttConfig) -> Seq<char> {
    match cfg.publisher_id {
        Some(id) => id@,
        None => DEFAULT_PUBLISHER_ID@,
    }
}

/// The effective topic prefix for a configuration.
pub open spec fn spec_topic_path(cfg: MqttConfig) -> Seq<char> {
    match cfg.topic_path {
        Some(path) => path@,
        None => DEFAULT_TOPIC_PATH@,
    }
}

impl MqttSettings {
    /// Resolve the message-bus configuration: default the port, the
    /// keep-alive, the client identifier and the topic prefix where
    /// unset, and take credentials only where both parts are given.
    pub fn from_config(cfg: &MqttConfig) -> (r: MqttSettings)
        ensures
            r.host@ == cfg.host@,
            r.port == (match cfg.port {
                Some(p) => p,
                None => DEFAULT_MQTT_PORT,
            }),
            r.keep_alive_seconds == cfg.keep_alive_seconds.unwrap_or(DEFAULT_KEEP_ALIVE_SECONDS),
            r.publisher_id@ == spec_publisher_id(*cfg),
            r.topic_path@ == spec_topic_path(*cfg),
            cfg.username is Some && cfg.password is Some ==> (r.credentials matches Some(c)
                && c.0@ == cfg.username.unwrap()@ && c.1@ == cfg.password.unwrap()@),
            !(cfg.username is Some && cfg.password is Some) ==> r.credentials is None,
    {
        let host = cfg.host.clone();
        let port = match cfg.port {
            Some(p) => p,
            None => DEFAULT_MQTT_PORT,
        };
        let keep_alive_seconds = cfg.keep_alive_seconds.unwrap_or(DEFAULT_KEEP_ALIVE_SECONDS);
        let publisher_id = match &cfg.publisher_id {
            Some(id) => id.clone(),
            None => DEFAULT_PUBLISHER_ID.to_owned(),
        };
        let topic_path = match &cfg.topic_path {
            Some(path) => path.clone(),
            None => DEFAULT_TOPIC_PATH.to_owned(),
        };
        let credentials = match (&cfg.username, &cfg.password) {
            (Some(username), Some(password)) => Some((username.clone(), password.clone())),
            _ => None,
        };
        MqttSettings { host, port, credentials, publisher_id, topic_path, keep_alive_seconds }
    }
}

} // verus!
