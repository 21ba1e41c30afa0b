[package]
name = "mecha_sdk"
version = "0.1.0"
edition = "2021"
publish = false

[dependencies]
anyhow = "=1.0.104"
bluer = { version = "=0.17.4", features = ["bluetoothd"] }
serde = { version = "=1.0.229", features = ["derive"] }
serde_yaml = "=0.9.34"
sysinfo = "=0.29.11"
tokio = { version = "=1.54.1", features = ["full"] }
tonic = "=0.14.6"
tracing = "=0.1.44"
tracing-subscriber = "=0.3.23"
wifi-ctrl = "=0.2.5"
