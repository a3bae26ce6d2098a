[package]
name = "monitor_rs"
version = "0.1.0"
edition = "2021"
publish = false

[dependencies]
anyhow = "*"
btleplug = "*"
clap = { version = "*", features = ["derive"] }
futures = "*"
log = "*"
mac_address = { version = "*", features = ["serde"] }
pretty_env_logger = "*"
rumqttc = "*"
serde = { version = "*", features = ["derive"] }
serde_derive = "*"
tokio = { version = "*", features = ["full"] }
toml = "*"
