//! The bridge's settings: broker address, credentials, keepalive and
//! heartbeat interval, and the device name used in every topic.
//!
//! The settings are validated once, before the core starts.  Loading reads
//! files and environment variables and so lives in the unverified binary;
//! it hands the raw values here, where the precedence rules, the numeric
//! parsing and the validation itself are verified.

use vstd::prelude::*;

use crate::codec::{parse_u16, parse_u64, spec_parse_u16, spec_parse_u64};

verus! {

/// A span of time, held as whole milliseconds.
#[derive(Debug, Clone, Copy, PartialEq, Eq, Structural)]
pub struct Duration {
    millis: u128,
}

impl Duration {
    /// The span as milliseconds.
    pub closed spec fn spec_millis(&self) -> int {
        self.millis as int
    }

    /// Every constructor keeps the span below `u64::MAX` seconds.
    #[verifier::type_invariant]
    spec fn bounded(&self) -> bool {
        self.millis <= u64::MAX as u128 * 1000
    }

    /// A span of `secs` whole seconds.
    pub fn from_secs(secs: u64) -> (d: Duration)
        ensures
            d.spec_millis() == secs * 1000,
    {
        Duration { millis: secs as u128 * 1000 }
    }

    /// A span of `millis` milliseconds.
    pub fn from_millis(millis: u64) -> (d: Duration)
        ensures
            d.spec_millis() == millis,
    {
        Duration { millis: millis as u128 }
    }

    /// The span in whole seconds, rounded down.
    pub fn as_secs(&self) -> (r: u64)
        ensures
            r == self.spec_millis() / 1000,
    {
        proof {
            use_type_invariant(self);
        }
        (self.millis / 1000) as u64
    }

    /// The span in milliseconds, saturating at the largest `u64`.
    pub fn as_millis_saturated(&self) -> (r: u64)
        ensures
            r == if self.spec_millis() > u64::MAX {
                u64::MAX as int
            } else {
                self.spec_millis()
            },
    {
        if self.millis > u64::MAX as u128 {
            u64::MAX
        } else {
            self.millis as u64
        }
    }

    /// Whether the span is zero.
    pub fn is_zero(&self) -> (r: bool)
        ensures
            r == (self.spec_millis() == 0),
    {
        self.millis == 0
    }
}

/// Why a configuration was refused.
#[derive(Debug, Clone, Copy, PartialEq, Eq, Structural)]
pub enum ConfigError {
    /// The device name is empty.
    EmptyDeviceName,
    /// The device name contains whitespace.
    DeviceNameWhitespace,
    /// The device name contains `'/'`, the topic separator.
    DeviceNameSlash,
    /// The device name contains `'+'`, the single-level topic wildcard.
    DeviceNamePlus,
    /// The device name contains `'#'`, the multi-level topic wildcard.
    DeviceNameHash,
    /// The broker host is empty.
    EmptyBrokerHost,
    /// The broker port is zero.
    ZeroBrokerPort,
    /// The keepalive is shorter than five seconds.
    KeepaliveTooShort,
    /// The keepalive is longer than a day.
    KeepaliveTooLong,
    /// The heartbeat interval is neither zero nor at least one second.
    HeartbeatTooShort,
    /// The heartbeat interval is longer than an hour.
    HeartbeatTooLong,
    /// The broker-port override is not a decimal port number.
    InvalidPortOverride,
    /// The keepalive override is not a decimal number of seconds.
    InvalidKeepaliveOverride,
    /// The heartbeat-interval override is not a decimal number of seconds.
    InvalidHeartbeatOverride,
}

impl ConfigError {
    /// A short description of the error.
    pub fn message(&self) -> (r: &'static str)
        ensures
            r@ == match self {
                ConfigError::EmptyDeviceName => "Device name cannot be empty"@,
                ConfigError::DeviceNameWhitespace => "Device name cannot contain whitespace"@,
                ConfigError::DeviceNameSlash => "Device name cannot contain '/' character (MQTT topic separator)"@,
                ConfigError::DeviceNamePlus => "Device name cannot contain '+' character (MQTT topic wildcard)"@,
                ConfigError::DeviceNameHash => "Device name cannot contain '#' character (MQTT topic wildcard)"@,
                ConfigError::EmptyBrokerHost => "MQTT broker host cannot be empty"@,
                ConfigError::ZeroBrokerPort => "MQTT broker port cannot be 0"@,
                ConfigError::KeepaliveTooShort => "MQTT keepalive must be at least 5 seconds"@,
                ConfigError::KeepaliveTooLong => "MQTT keepalive must be at most 24 hours (86400 seconds)"@,
                ConfigError::HeartbeatTooShort => "Heartbeat interval must be at least 1 second or 0 to disable"@,
                ConfigError::HeartbeatTooLong => "Heartbeat interval must be at most 1 hour (3600 seconds)"@,
                ConfigError::InvalidPortOverride => "Invalid KBUS_BRIDGE_MQTT_PORT value"@,
                ConfigError::InvalidKeepaliveOverride => "Invalid KBUS_BRIDGE_MQTT_KEEPALIVE value"@,
                ConfigError::InvalidHeartbeatOverride => "Invalid KBUS_BRIDGE_MQTT_HEARTBEAT_INTERVAL value"@,
            },
    {
        match self {
            ConfigError::EmptyDeviceName => "Device name cannot be empty",
            ConfigError::DeviceNameWhitespace => "Device name cannot contain whitespace",
            ConfigError::DeviceNameSlash => "Device name cannot contain '/' character (MQTT topic separator)",
            ConfigError::DeviceNamePlus => "Device name cannot contain '+' character (MQTT topic wildcard)",
            ConfigError::DeviceNameHash => "Device name cannot contain '#' character (MQTT topic wildcard)",
            ConfigError::EmptyBrokerHost => "MQTT broker host cannot be empty",
            ConfigError::ZeroBrokerPort => "MQTT broker port cannot be 0",
            ConfigError::KeepaliveTooShort => "MQTT keepalive must be at least 5 seconds",
            ConfigError::KeepaliveTooLong => "MQTT keepalive must be at most 24 hours (86400 seconds)",
            ConfigError::HeartbeatTooShort => "Heartbeat interval must be at least 1 second or 0 to disable",
            ConfigError::HeartbeatTooLong => "Heartbeat interval must be at most 1 hour (3600 seconds)",
            ConfigError::InvalidPortOverride => "Invalid KBUS_BRIDGE_MQTT_PORT value",
            ConfigError::InvalidKeepaliveOverride => "Invalid KBUS_BRIDGE_MQTT_KEEPALIVE value",
            ConfigError::InvalidHeartbeatOverride => "Invalid KBUS_BRIDGE_MQTT_HEARTBEAT_INTERVAL value",
        }
    }
}

/// Configuration for the MQTT connection.
#[derive(Debug, Clone)]
pub struct MqttConfig {
    /// MQTT broker hostname or IP address.
    pub broker_host: String,
    /// MQTT broker port.
    pub broker_port: u16,
    /// MQTT username for authentication (optional).
    pub username: Option<String>,
    /// MQTT password for authentication (optional).
    pub password: Option<String>,
    /// MQTT connection keepalive duration.
    pub keepalive: Duration,
    /// How often to send status updates; zero disables the heartbeat.
    pub heartbeat_interval: Duration,
}

/// Main application configuration.
#[derive(Debug, Clone)]
pub struct Config {
    /// Name of the device to use in MQTT topics.
    pub device_name: String,
    /// MQTT connection configuration.
    pub mqtt: MqttConfig,
}

/// The default MQTT broker port.
pub fn default_mqtt_port() -> (r: u16)
    ensures
        r == 1883,
{
    1883
}

/// The default keepalive: five minutes.
pub fn default_keepalive() -> (r: Duration)
    ensures
        r.spec_millis() == 300 * 1000,
{
    Duration::from_secs(300)
}

/// The default heartbeat interval: one minute.
pub fn default_heartbeat_interval() -> (r: Duration)
    ensures
        r.spec_millis() == 60 * 1000,
{
    Duration::from_secs(60)
}

/// The default device name.
pub fn default_device_name() -> (r: String)
    ensures
        r@ == "kbus_mqtt_bridge"@,
{
    "kbus_mqtt_bridge".to_owned()
}

impl Default for MqttConfig {
    /// Localhost on the default port, anonymous, with the default
    /// keepalive and heartbeat interval.
    fn default() -> (c: MqttConfig)
        ensures
            c.broker_host@ == "localhost"@,
            c.broker_port == 1883,
            c.username is None,
            c.password is None,
            c.keepalive.spec_millis() == 300 * 1000,
            c.heartbeat_interval.spec_millis() == 60 * 1000,
    {
        MqttConfig {
            broker_host: "localhost".to_owned(),
            broker_port: default_mqtt_port(),
            username: None,
            password: None,
            keepalive: default_keepalive(),
            heartbeat_interval: default_heartbeat_interval(),
        }
    }
}

impl Default for Config {
    /// The default device name over the default MQTT configuration.
    fn default() -> (c: Config)
        ensures
            c.device_name@ == "kbus_mqtt_bridge"@,
            c.mqtt.broker_host@ == "localhost"@,
            c.mqtt.broker_port == 1883,
            c.mqtt.username is None,
            c.mqtt.password is None,
            c.mqtt.keepalive.spec_millis() == 300 * 1000,
            c.mqtt.heartbeat_interval.spec_millis() == 60 * 1000,
    {
        Config { device_name: default_device_name(), mqtt: MqttConfig::default() }
    }
}

/// The characters with the Unicode `White_Space` property, as
/// `char::is_whitespace` accepts them.
pub open spec fn spec_is_whitespace(c: char) -> bool {
    ||| 0x9 <= c as u32 <= 0xD
    ||| c as u32 == 0x20
    ||| c as u32 == 0x85
    ||| c as u32 == 0xA0
    ||| c as u32 == 0x1680
    ||| 0x2000 <= c as u32 <= 0x200A
    ||| c as u32 == 0x2028
    ||| c as u32 == 0x2029
    ||| c as u32 == 0x202F
    ||| c as u32 == 0x205F
    ||| c as u32 == 0x3000
}

/// What is wrong with one device-name character, if anything:
/// whitespace and the topic-syntax characters `'/'`, `'+'` and `'#'`
/// are refused.
pub open spec fn spec_bad_name_char(c: char) -> Option<ConfigError> {
    if spec_is_whitespace(c) {
        Some(ConfigError::DeviceNameWhitespace)
    } else if c == '/' {
        Some(ConfigError::DeviceNameSlash)
    } else if c == '+' {
        Some(ConfigError::DeviceNamePlus)
    } else if c == '#' {
        Some(ConfigError::DeviceNameHash)
    } else {
        None
    }
}

/// The error of the first refused character of `s` at or after `i`, if
/// any.
pub open spec fn spec_name_error_from(s: Seq<char>, i: int) -> Option<ConfigError>
    decreases s.len() - i,
{
    if i < 0 || i >= s.len() {
        None
    } else if spec_bad_name_char(s[i]) is Some {
        spec_bad_name_char(s[i])
    } else {
        spec_name_error_from(s, i + 1)
    }
}

/// Why the whole configuration is refused, if anything: the first failing
/// check, in the fixed order device name, broker host, broker port,
/// keepalive, heartbeat interval.
pub open spec fn spec_validate(c: &Config) -> Option<ConfigError> {
    if c.device_name@.len() == 0 {
        Some(ConfigError::EmptyDeviceName)
    } else if spec_name_error_from(c.device_name@, 0) is Some {
        spec_name_error_from(c.device_name@, 0)
    } else if c.mqtt.broker_host@.len() == 0 {
        Some(ConfigError::EmptyBrokerHost)
    } else if c.mqtt.broker_port == 0 {
        Some(ConfigError::ZeroBrokerPort)
    } else if c.mqtt.keepalive.spec_millis() / 1000 < 5 {
        Some(ConfigError::KeepaliveTooShort)
    } else if c.mqtt.keepalive.spec_millis() / 1000 > 86400 {
        Some(ConfigError::KeepaliveTooLong)
    } else if c.mqtt.heartbeat_interval.spec_millis() != 0
        && c.mqtt.heartbeat_interval.spec_millis() / 1000 < 1 {
        Some(ConfigError::HeartbeatTooShort)
    } else if c.mqtt.heartbeat_interval.spec_millis() / 1000 > 3600 {
        Some(ConfigError::HeartbeatTooLong)
    } else {
        None
    }
}

impl Config {
    /// Validates the configuration, reporting the first failing check.
    pub fn validate(&self) -> (r: Result<(), ConfigError>)
        ensures
            r == match spec_validate(self) {
                Some(e) => Result::<(), ConfigError>::Err(e),
                None => Result::<(), ConfigError>::Ok(()),
            },
    {
        let name: &str = self.device_name.as_str();
        if name.is_empty() {
            return Err(ConfigError::EmptyDeviceName);
        }
        if let Some(e) = device_name_error(name) {
            return Err(e);
        }
        if self.mqtt.broker_host.as_str().is_empty() {
            return Err(ConfigError::EmptyBrokerHost);
        }
        if self.mqtt.broker_port == 0 {
            return Err(ConfigError::ZeroBrokerPort);
        }
        let keepalive_secs = self.mqtt.keepalive.as_secs();
        if keepalive_secs < 5 {
            return Err(ConfigError::KeepaliveTooShort);
        }
        if keepalive_secs > 86400 {
            return Err(ConfigError::KeepaliveTooLong);
        }
        if !self.mqtt.heartbeat_interval.is_zero()
            && self.mqtt.heartbeat_interval.as_secs() < 1 {
            return Err(ConfigError::HeartbeatTooShort);
        }
        if self.mqtt.heartbeat_interval.as_secs() > 3600 {
            return Err(ConfigError::HeartbeatTooLong);
        }
        Ok(())
    }
}

/// Scans the device name for its first refused character.
fn device_name_error(name: &str) -> (r: Option<ConfigError>)
    ensures
        r == spec_name_error_from(name@, 0),
{
    for c in it: name.chars()
        invariant
            it.seq() == name@,
            spec_name_error_from(name@, 0) == spec_name_error_from(name@, it.index() as int),
    {
        let u: u32 = c as u32;
        let bad: Option<ConfigError> = if (0x9 <= u && u <= 0xD) || u == 0x20 || u == 0x85
            || u == 0xA0 || u == 0x1680 || (0x2000 <= u && u <= 0x200A) || u == 0x2028
            || u == 0x2029 || u == 0x202F || u == 0x205F || u == 0x3000 {
            Some(ConfigError::DeviceNameWhitespace)
        } else if c == '/' {
            Some(ConfigError::DeviceNameSlash)
        } else if c == '+' {
            Some(ConfigError::DeviceNamePlus)
        } else if c == '#' {
            Some(ConfigError::DeviceNameHash)
        } else {
            None
        };
        if let Some(e) = bad {
            return Some(e);
        }
    }
    None
}

/// Raw override values, as the environment provides them: text for the
/// string-valued settings, undecoded bytes for the numeric ones.
#[derive(Debug, Clone, Default)]
pub struct ConfigOverrides {
    /// Overrides the device name.
    pub device_name: Option<String>,
    /// Overrides the broker host.
    pub broker_host: Option<String>,
    /// Overrides the username.
    pub username: Option<String>,
    /// Overrides the password.
    pub password: Option<String>,
    /// Overrides the broker port: a decimal port number.
    pub broker_port: Option<Vec<u8>>,
    /// Overrides the keepalive: a decimal number of seconds.
    pub keepalive_secs: Option<Vec<u8>>,
    /// Overrides the heartbeat interval: a decimal number of seconds.
    pub heartbeat_secs: Option<Vec<u8>>,
}

impl Config {
    /// Lays the overrides over this configuration.  A numeric override
    /// that does not parse is refused — the port first, then the
    /// keepalive, then the heartbeat interval; nothing about the result
    /// is validated here.
    pub fn with_overrides(self, ov: &ConfigOverrides) -> (r: Result<Config, ConfigError>)
        ensures
            ({
                let port_bad = ov.broker_port matches Some(p) && spec_parse_u16(p@) is None;
                let keep_bad = ov.keepalive_secs matches Some(k) && spec_parse_u64(k@) is None;
                let hb_bad = ov.heartbeat_secs matches Some(h) && spec_parse_u64(h@) is None;
                match r {
                    Result::Err(e) => {
                        ||| (port_bad && e == ConfigError::InvalidPortOverride)
                        ||| (!port_bad && keep_bad && e == ConfigError::InvalidKeepaliveOverride)
                        ||| (!port_bad && !keep_bad && hb_bad && e
                            == ConfigError::InvalidHeartbeatOverride)
                    },
                    Result::Ok(c) => {
                        &&& !port_bad
                        &&& !keep_bad
                        &&& !hb_bad
                        &&& c.device_name@ == match ov.device_name {
                            Some(n) => n@,
                            None => self.device_name@,
                        }
                        &&& c.mqtt.broker_host@ == match ov.broker_host {
                            Some(h) => h@,
                            None => self.mqtt.broker_host@,
                        }
                        &&& match ov.username {
                            Some(u) => c.mqtt.username matches Some(cu) && cu@ == u@,
                            None => match self.mqtt.username {
                                Some(su) => c.mqtt.username matches Some(cu) && cu@ == su@,
                                None => c.mqtt.username is None,
                            },
                        }
                        &&& match ov.password {
                            Some(p) => c.mqtt.password matches Some(cp) && cp@ == p@,
                            None => match self.mqtt.password {
                                Some(sp) => c.mqtt.password matches Some(cp) && cp@ == sp@,
                                None => c.mqtt.password is None,
                            },
                        }
                        &&& c.mqtt.broker_port == match ov.broker_port {
                            Some(p) => spec_parse_u16(p@)->0,
                            None => self.mqtt.broker_port,
                        }
                        &&& c.mqtt.keepalive.spec_millis() == match ov.keepalive_secs {
                            Some(k) => spec_parse_u64(k@)->0 * 1000,
                            None => self.mqtt.keepalive.spec_millis(),
                        }
                        &&& c.mqtt.heartbeat_interval.spec_millis() == match ov
                            .heartbeat_secs {
                            Some(h) => spec_parse_u64(h@)->0 * 1000,
                            None => self.mqtt.heartbeat_interval.spec_millis(),
                        }
                    },
                }
            }),
    {
        let mut config = self;
        if let Some(name) = &ov.device_name {
            config.device_name = name.clone();
        }
        if let Some(host) = &ov.broker_host {
            config.mqtt.broker_host = host.clone();
        }
        if let Some(user) = &ov.username {
            config.mqtt.username = Some(user.clone());
        }
        if let Some(pass) = &ov.password {
            config.mqtt.password = Some(pass.clone());
        }
        if let Some(port_text) = &ov.broker_port {
            match parse_u16(port_text.as_slice()) {
                Some(port) => {
                    config.mqtt.broker_port = port;
                },
                None => {
                    return Err(ConfigError::InvalidPortOverride);
                },
            }
        }
        if let Some(keep_text) = &ov.keepalive_secs {
            match parse_u64(keep_text.as_slice()) {
                Some(secs) => {
                    config.mqtt.keepalive = Duration::from_secs(secs);
                },
                None => {
                    return Err(ConfigError::InvalidKeepaliveOverride);
                },
            }
        }
        if let Some(hb_text) = &ov.heartbeat_secs {
            match parse_u64(hb_text.as_slice()) {
                Some(secs) => {
                    config.mqtt.heartbeat_interval = Duration::from_secs(secs);
                },
                None => {
                    return Err(ConfigError::InvalidHeartbeatOverride);
                },
            }
        }
        Ok(config)
    }
}

} // verus!
