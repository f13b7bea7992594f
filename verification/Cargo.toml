[package]
name = "hwmonitor"
version = "0.1.0"
edition = "2021"
publish = false

[dependencies]
axum = "0.6"
axum-extra = { version = "0.4", features = ["spa"] }
futures-util = "0.3"
inquire = "0.6"
network-interface = "1"
nvml-wrapper = "0.9"
serde = { version = "1", features = ["derive"] }
serde_json = "1"
sysinfo = "0.29"
tokio = { version = "1", features = ["full"] }
tokio-tungstenite = "0.18"
tower-http = { version = "0.3", features = ["cors"] }
