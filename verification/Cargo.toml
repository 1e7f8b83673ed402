[package]
name = "mqtt_log_viewer"
version = "0.1.0"
edition = "2021"
publish = false

[dependencies]
anyhow = "1"
chrono = { version = "0.4", features = ["serde"] }
copypasta = "*"
crossterm = "*"
rbatis = "*"
rbdc-sqlite = "*"
rbs = "*"
regex = "1"
rumqttc = "*"
serde = { version = "1", features = ["derive"] }
serde_json = { version = "1", features = ["preserve_order"] }
tokio = { version = "1", features = ["full"] }
toml = "*"
tracing = "0.1"
tracing-subscriber = "0.3"
