//! The durable configuration, its factory defaults, the validation applied
//! to updates, and the boot-failure counter that escalates to a factory
//! reset.
use vstd::prelude::*;
use vstd::string::StringExecFns;

verus! {

pub const DEFAULT_API_PORT: u16 = 80;

pub const DEFAULT_SENSOR_RETRIES: u32 = 4;

pub const DEFAULT_POLL_DELAY: u64 = 30;

pub const DEFAULT_BOOT_FAIL_MAX: u32 = 4;

/// Widest static subnet mask accepted, in bits.
pub const MAX_V4_MASK: u8 = 30;

/// An IPv4 address as its four octets, most significant first.
#[derive(Debug, Clone, Copy, PartialEq, Eq, Structural)]
pub struct Ipv4 {
    pub a: u8,
    pub b: u8,
    pub c: u8,
    pub d: u8,
}

impl Ipv4 {
    pub open spec fn spec_unspecified() -> Ipv4 {
        Ipv4 { a: 0, b: 0, c: 0, d: 0 }
    }

    /// `0.0.0.0`.
    pub fn unspecified() -> (r: Ipv4)
        ensures
            r == Ipv4::spec_unspecified(),
    {
        Ipv4 { a: 0, b: 0, c: 0, d: 0 }
    }
}

/// Network credentials, addressing, telemetry endpoint, acquisition cadence
/// and boot health.
#[derive(Debug)]
pub struct MyConfig {
    pub port: u16,
    pub retries: u32,
    pub delay: u64,
    pub wifi_ssid: String,
    pub wifi_pass: String,
    pub wifi_wpa2ent: bool,
    pub wifi_username: String,
    pub v4dhcp: bool,
    pub v4addr: Ipv4,
    pub v4mask: u8,
    pub v4gw: Ipv4,
    pub dns1: Ipv4,
    pub dns2: Ipv4,
    pub mqtt_enable: bool,
    pub mqtt_url: String,
    pub mqtt_topic: String,
    /// Consecutive failed initial connections.
    pub boot_fail_cnt: u32,
    /// Failed initial connections tolerated before a factory reset.
    pub boot_fail_max: u32,
}

/// Whether `c` is the factory configuration for the given build-time
/// credentials and port.
pub open spec fn is_factory(c: MyConfig, ssid: Seq<char>, pass: Seq<char>, port: u16) -> bool {
    &&& c.port == port
    &&& c.retries == DEFAULT_SENSOR_RETRIES
    &&& c.delay == DEFAULT_POLL_DELAY
    &&& c.wifi_ssid@ == ssid
    &&& c.wifi_pass@ == pass
    &&& !c.wifi_wpa2ent
    &&& c.wifi_username@ == Seq::<char>::empty()
    &&& c.v4dhcp
    &&& c.v4addr == Ipv4::spec_unspecified()
    &&& c.v4mask == 0
    &&& c.v4gw == Ipv4::spec_unspecified()
    &&& c.dns1 == Ipv4::spec_unspecified()
    &&& c.dns2 == Ipv4::spec_unspecified()
    &&& !c.mqtt_enable
    &&& c.mqtt_url@ == "mqtt://mqtt.local:1883"@
    &&& c.mqtt_topic@ == "esp32temp"@
    &&& c.boot_fail_cnt == 0
    &&& c.boot_fail_max == DEFAULT_BOOT_FAIL_MAX
}

/// Why a configuration update was refused.
#[derive(Debug, Clone, Copy, PartialEq, Eq, Structural)]
pub enum ConfigError {
    /// The static subnet mask is wider than `MAX_V4_MASK` bits.
    MaskTooWide,
}

/// `c` with its static addressing cleared when it asks for DHCP.
pub open spec fn normalized(c: MyConfig) -> MyConfig {
    if c.v4dhcp {
        MyConfig {
            v4addr: Ipv4::spec_unspecified(),
            v4mask: 0,
            v4gw: Ipv4::spec_unspecified(),
            dns1: Ipv4::spec_unspecified(),
            dns2: Ipv4::spec_unspecified(),
            ..c
        }
    } else {
        c
    }
}

/// The configuration after a failed initial connection: one more failure
/// counted, or, once the count would pass the threshold, the factory
/// configuration with a clear count.
pub open spec fn escalated(c: MyConfig, factory: MyConfig) -> MyConfig {
    if c.boot_fail_cnt >= c.boot_fail_max {
        MyConfig { boot_fail_cnt: 0, ..factory }
    } else {
        MyConfig { boot_fail_cnt: (c.boot_fail_cnt + 1) as u32, ..c }
    }
}

/// The configuration after `n` failed initial connections in a row, each
/// persisted before the reboot that follows it.
pub open spec fn escalated_n(c: MyConfig, factory: MyConfig, n: nat) -> MyConfig
    decreases n,
{
    if n == 0 {
        c
    } else {
        escalated(escalated_n(c, factory, (n - 1) as nat), factory)
    }
}

impl MyConfig {
    /// The factory configuration for the given build-time credentials and
    /// port.
    pub fn factory(wifi_ssid: String, wifi_pass: String, port: u16) -> (r: MyConfig)
        ensures
            is_factory(r, wifi_ssid@, wifi_pass@, port),
    {
        MyConfig {
            port,
            retries: DEFAULT_SENSOR_RETRIES,
            delay: DEFAULT_POLL_DELAY,
            wifi_ssid,
            wifi_pass,
            wifi_wpa2ent: false,
            wifi_username: String::new(),
            v4dhcp: true,
            v4addr: Ipv4::unspecified(),
            v4mask: 0,
            v4gw: Ipv4::unspecified(),
            dns1: Ipv4::unspecified(),
            dns2: Ipv4::unspecified(),
            mqtt_enable: false,
            mqtt_url: String::from_str("mqtt://mqtt.local:1883"),
            mqtt_topic: String::from_str("esp32temp"),
            boot_fail_cnt: 0,
            boot_fail_max: DEFAULT_BOOT_FAIL_MAX,
        }
    }

    /// The configuration to run with at boot: the stored one when the slot
    /// held a valid one, else the factory configuration, which must then be
    /// saved at once (the second component).
    pub fn at_boot(stored: Option<MyConfig>, factory: MyConfig) -> (r: (MyConfig, bool))
        ensures
            stored matches Some(c) ==> r.0 == c && !r.1,
            stored is None ==> r.0 == factory && r.1,
    {
        match stored {
            Some(c) => (c, false),
            None => (factory, true),
        }
    }

    /// Checks and normalises a replacement configuration: a mask wider than
    /// `MAX_V4_MASK` is refused; with DHCP the static addressing is cleared.
    pub fn validated(self) -> (r: Result<MyConfig, ConfigError>)
        ensures
            r is Err <==> self.v4mask > MAX_V4_MASK,
            r matches Ok(c) ==> c == normalized(self),
            r matches Err(e) ==> e == ConfigError::MaskTooWide,
    {
        if self.v4mask > MAX_V4_MASK {
            return Err(ConfigError::MaskTooWide);
        }
        if self.v4dhcp {
            Ok(MyConfig {
                v4addr: Ipv4::unspecified(),
                v4mask: 0,
                v4gw: Ipv4::unspecified(),
                dns1: Ipv4::unspecified(),
                dns2: Ipv4::unspecified(),
                ..self
            })
        } else {
            Ok(self)
        }
    }

    /// The configuration to persist after the initial connection failed.
    pub fn after_initial_failure(self, factory: MyConfig) -> (r: MyConfig)
        ensures
            r == escalated(self, factory),
    {
        if self.boot_fail_cnt >= self.boot_fail_max {
            MyConfig { boot_fail_cnt: 0, ..factory }
        } else {
            MyConfig { boot_fail_cnt: self.boot_fail_cnt + 1, ..self }
        }
    }

    /// The configuration after the link came up, and whether it changed and
    /// must be persisted: a successful boot clears the failure count.
    pub fn after_connected(self) -> (r: (MyConfig, bool))
        ensures
            r.0 == (MyConfig { boot_fail_cnt: 0, ..self }),
            r.1 == (self.boot_fail_cnt != 0),
    {
        let changed = self.boot_fail_cnt != 0;
        (MyConfig { boot_fail_cnt: 0, ..self }, changed)
    }
}

impl Default for MyConfig {
    /// The factory configuration with the fallback credentials and port.
    fn default() -> (r: MyConfig)
        ensures
            is_factory(r, "internet"@, "password"@, DEFAULT_API_PORT),
    {
        MyConfig::factory(String::from_str("internet"), String::from_str("password"), DEFAULT_API_PORT)
    }
}

/// Failed initial connections are counted one by one while the count stays
/// within the threshold; the failure after the threshold is reached restores
/// the factory configuration with a clear count.
pub proof fn lemma_boot_failures_escalate(c: MyConfig, factory: MyConfig, n: nat)
    requires
        c.boot_fail_cnt == 0,
        n <= c.boot_fail_max + 1,
    ensures
        n <= c.boot_fail_max ==> escalated_n(c, factory, n) == (MyConfig {
            boot_fail_cnt: n as u32,
            ..c
        }),
        n == c.boot_fail_max + 1 ==> escalated_n(c, factory, n) == (MyConfig {
            boot_fail_cnt: 0,
            ..factory
        }),
    decreases n,
{
    if n > 0 {
        lemma_boot_failures_escalate(c, factory, (n - 1) as nat);
    }
}

/// The factory configuration starts with a clear failure count and a
/// failure after it counts one.
pub proof fn lemma_factory_counts_from_zero(
    f: MyConfig,
    ssid: Seq<char>,
    pass: Seq<char>,
    port: u16,
)
    requires
        is_factory(f, ssid, pass, port),
    ensures
        f.boot_fail_cnt == 0,
        escalated(f, f).boot_fail_cnt == 1,
{
}

} // verus!
