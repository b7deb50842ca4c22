[package]
name = "kbus_mqtt_bridge"
version = "0.1.0"
edition = "2021"
publish = false

[dependencies]
anyhow = "*"
chrono = "*"
humantime-serde = "*"
libc = "*"
pnet = "*"
rumqttc = "*"
serde = { version = "*", features = ["derive"] }
serde_json = "*"
sysinfo = "*"
thiserror = "*"
tokio = { version = "*", features = ["rt-multi-thread", "macros", "signal", "sync", "time"] }
tokio-util = "*"
toml = "*"
tracing = "*"
tracing-subscriber = "*"
