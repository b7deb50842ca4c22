use kbus_mqtt_bridge::config::{
    default_device_name, default_heartbeat_interval, default_keepalive, default_mqtt_port,
    Config, ConfigError, ConfigOverrides, Duration, MqttConfig,
};

#[test]
fn test_default_config() {
    let config = Config::default();
    assert_eq!(config.device_name, "kbus_mqtt_bridge");
    assert_eq!(config.mqtt.broker_host, "localhost");
    assert_eq!(config.mqtt.broker_port, 1883);
    assert_eq!(config.mqtt.keepalive, Duration::from_secs(300));
    assert_eq!(config.mqtt.heartbeat_interval, Duration::from_secs(60));
}

#[test]
fn test_valid_config_validation() {
    let config = Config {
        device_name: "test_device".to_string(),
        mqtt: MqttConfig {
            broker_host: "mqtt.example.com".to_string(),
            broker_port: 1883,
            username: None,
            password: None,
            keepalive: Duration::from_secs(300),
            heartbeat_interval: Duration::from_secs(60),
        },
    };

    let result = config.validate();
    assert!(result.is_ok());
}

#[test]
fn test_invalid_device_name() {
    // Empty device name
    let config = Config {
        device_name: "".to_string(),
        mqtt: MqttConfig::default(),
    };
    let result = config.validate();
    assert!(result.is_err());

    // Device name with spaces
    let config = Config {
        device_name: "test device".to_string(),
        mqtt: MqttConfig::default(),
    };
    let result = config.validate();
    assert!(result.is_err());

    // Device name with MQTT topic separator
    let config = Config {
        device_name: "test/device".to_string(),
        mqtt: MqttConfig::default(),
    };
    let result = config.validate();
    assert!(result.is_err());

    // Device name with MQTT single-level wildcard
    let config = Config {
        device_name: "test+device".to_string(),
        mqtt: MqttConfig::default(),
    };
    let result = config.validate();
    assert!(result.is_err());

    // Device name with MQTT multi-level wildcard
    let config = Config {
        device_name: "test#device".to_string(),
        mqtt: MqttConfig::default(),
    };
    let result = config.validate();
    assert!(result.is_err());
}

#[test]
fn test_invalid_mqtt_host() {
    let config = Config {
        device_name: "test_device".to_string(),
        mqtt: MqttConfig {
            broker_host: "".to_string(),
            broker_port: 1883,
            username: None,
            password: None,
            keepalive: Duration::from_secs(300),
            heartbeat_interval: Duration::from_secs(60),
        },
    };
    let result = config.validate();
    assert!(result.is_err());
}

#[test]
fn test_invalid_mqtt_port() {
    let config = Config {
        device_name: "test_device".to_string(),
        mqtt: MqttConfig {
            broker_host: "mqtt.example.com".to_string(),
            broker_port: 0,
            username: None,
            password: None,
            keepalive: Duration::from_secs(300),
            heartbeat_interval: Duration::from_secs(60),
        },
    };
    let result = config.validate();
    assert!(result.is_err());
}

#[test]
fn test_invalid_keepalive() {
    // Too short keepalive
    let config = Config {
        device_name: "test_device".to_string(),
        mqtt: MqttConfig {
            broker_host: "mqtt.example.com".to_string(),
            broker_port: 1883,
            username: None,
            password: None,
            keepalive: Duration::from_secs(3),
            heartbeat_interval: Duration::from_secs(60),
        },
    };
    let result = config.validate();
    assert!(result.is_err());

    // Too long keepalive
    let config = Config {
        device_name: "test_device".to_string(),
        mqtt: MqttConfig {
            broker_host: "mqtt.example.com".to_string(),
            broker_port: 1883,
            username: None,
            password: None,
            keepalive: Duration::from_secs(100000),
            heartbeat_interval: Duration::from_secs(60),
        },
    };
    let result = config.validate();
    assert!(result.is_err());
}

#[test]
fn test_invalid_heartbeat_interval() {
    // Too short heartbeat interval
    let config = Config {
        device_name: "test_device".to_string(),
        mqtt: MqttConfig {
            broker_host: "mqtt.example.com".to_string(),
            broker_port: 1883,
            username: None,
            password: None,
            keepalive: Duration::from_secs(300),
            heartbeat_interval: Duration::from_millis(500),
        },
    };
    let result = config.validate();
    assert!(result.is_err());

    // Too long heartbeat interval
    let config = Config {
        device_name: "test_device".to_string(),
        mqtt: MqttConfig {
            broker_host: "mqtt.example.com".to_string(),
            broker_port: 1883,
            username: None,
            password: None,
            keepalive: Duration::from_secs(300),
            heartbeat_interval: Duration::from_secs(4000),
        },
    };
    let result = config.validate();
    assert!(result.is_err());
}

#[test]
fn test_validate_error_kinds() {
    let mut config = Config::default();
    config.device_name = "".to_string();
    assert_eq!(config.validate(), Err(ConfigError::EmptyDeviceName));

    config.device_name = "a b".to_string();
    assert_eq!(config.validate(), Err(ConfigError::DeviceNameWhitespace));

    config.device_name = "a/b".to_string();
    assert_eq!(config.validate(), Err(ConfigError::DeviceNameSlash));

    config.device_name = "a+b".to_string();
    assert_eq!(config.validate(), Err(ConfigError::DeviceNamePlus));

    config.device_name = "a#b".to_string();
    assert_eq!(config.validate(), Err(ConfigError::DeviceNameHash));

    // The first offending character decides the error.
    config.device_name = "a#+b".to_string();
    assert_eq!(config.validate(), Err(ConfigError::DeviceNameHash));

    // A non-breaking space is whitespace too.
    config.device_name = "a\u{00A0}b".to_string();
    assert_eq!(config.validate(), Err(ConfigError::DeviceNameWhitespace));

    config.device_name = "ok_name".to_string();
    config.mqtt.broker_host = "".to_string();
    assert_eq!(config.validate(), Err(ConfigError::EmptyBrokerHost));

    config.mqtt.broker_host = "host".to_string();
    config.mqtt.broker_port = 0;
    assert_eq!(config.validate(), Err(ConfigError::ZeroBrokerPort));

    config.mqtt.broker_port = 1883;
    config.mqtt.keepalive = Duration::from_millis(4999);
    assert_eq!(config.validate(), Err(ConfigError::KeepaliveTooShort));

    config.mqtt.keepalive = Duration::from_secs(86401);
    assert_eq!(config.validate(), Err(ConfigError::KeepaliveTooLong));

    config.mqtt.keepalive = Duration::from_secs(86400);
    config.mqtt.heartbeat_interval = Duration::from_millis(999);
    assert_eq!(config.validate(), Err(ConfigError::HeartbeatTooShort));

    config.mqtt.heartbeat_interval = Duration::from_secs(3601);
    assert_eq!(config.validate(), Err(ConfigError::HeartbeatTooLong));

    // Zero disables the heartbeat and is accepted.
    config.mqtt.heartbeat_interval = Duration::from_secs(0);
    assert!(config.validate().is_ok());
}

#[test]
fn test_defaults() {
    assert_eq!(default_mqtt_port(), 1883);
    assert_eq!(default_keepalive(), Duration::from_secs(300));
    assert_eq!(default_heartbeat_interval(), Duration::from_secs(60));
    assert_eq!(default_device_name(), "kbus_mqtt_bridge");
}

#[test]
fn test_duration_values() {
    assert_eq!(Duration::from_secs(1), Duration::from_millis(1000));
    assert_eq!(Duration::from_secs(300).as_secs(), 300);
    assert_eq!(Duration::from_millis(1500).as_secs(), 1);
    assert_eq!(Duration::from_millis(500).as_millis_saturated(), 500);
    assert!(Duration::from_secs(0).is_zero());
    assert!(!Duration::from_millis(1).is_zero());
}

#[test]
fn test_overrides_from_environment_values() {
    // The same values the environment would carry.
    let base = Config::default();
    let ov = ConfigOverrides {
        device_name: Some("env_device".to_string()),
        broker_host: Some("env.mqtt.com".to_string()),
        username: None,
        password: None,
        broker_port: Some(b"2345".to_vec()),
        keepalive_secs: Some(b"150".to_vec()),
        heartbeat_secs: Some(b"45".to_vec()),
    };
    let config = base.with_overrides(&ov).unwrap();
    assert_eq!(config.device_name, "env_device");
    assert_eq!(config.mqtt.broker_host, "env.mqtt.com");
    assert_eq!(config.mqtt.broker_port, 2345);
    assert_eq!(config.mqtt.keepalive, Duration::from_secs(150));
    assert_eq!(config.mqtt.heartbeat_interval, Duration::from_secs(45));
    assert!(config.validate().is_ok());
}

#[test]
fn test_overrides_precedence() {
    // File values in the base; the environment overrides only some.
    let base = Config {
        device_name: "file_device".to_string(),
        mqtt: MqttConfig {
            broker_host: "file.mqtt.org".to_string(),
            broker_port: 8883,
            username: Some("file_user".to_string()),
            password: None,
            keepalive: Duration::from_secs(60),
            heartbeat_interval: Duration::from_secs(90),
        },
    };
    let ov = ConfigOverrides {
        device_name: None,
        broker_host: Some("env.mqtt.com".to_string()),
        username: None,
        password: Some("env_pass".to_string()),
        broker_port: Some(b"2345".to_vec()),
        keepalive_secs: None,
        heartbeat_secs: None,
    };
    let config = base.with_overrides(&ov).unwrap();
    assert_eq!(config.device_name, "file_device"); // kept from the base
    assert_eq!(config.mqtt.broker_host, "env.mqtt.com"); // overridden
    assert_eq!(config.mqtt.broker_port, 2345); // overridden
    assert_eq!(config.mqtt.username.as_deref(), Some("file_user")); // kept
    assert_eq!(config.mqtt.password.as_deref(), Some("env_pass")); // overridden
    assert_eq!(config.mqtt.keepalive, Duration::from_secs(60)); // kept
    assert_eq!(config.mqtt.heartbeat_interval, Duration::from_secs(90)); // kept
}

#[test]
fn test_invalid_override_values() {
    let base = Config::default();
    let ov = ConfigOverrides {
        broker_port: Some(b"not_a_number".to_vec()),
        ..ConfigOverrides::default()
    };
    assert!(matches!(
        base.clone().with_overrides(&ov),
        Err(ConfigError::InvalidPortOverride)
    ));

    let ov = ConfigOverrides {
        keepalive_secs: Some(b"invalid".to_vec()),
        ..ConfigOverrides::default()
    };
    assert!(matches!(
        base.clone().with_overrides(&ov),
        Err(ConfigError::InvalidKeepaliveOverride)
    ));

    let ov = ConfigOverrides {
        heartbeat_secs: Some(b"invalid".to_vec()),
        ..ConfigOverrides::default()
    };
    assert!(matches!(
        base.clone().with_overrides(&ov),
        Err(ConfigError::InvalidHeartbeatOverride)
    ));

    // A bad port is reported before a bad keepalive.
    let ov = ConfigOverrides {
        broker_port: Some(b"99999".to_vec()),
        keepalive_secs: Some(b"bad".to_vec()),
        ..ConfigOverrides::default()
    };
    assert!(matches!(
        base.with_overrides(&ov),
        Err(ConfigError::InvalidPortOverride)
    ));
}
