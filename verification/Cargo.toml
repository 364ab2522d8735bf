[package]
name = "komari-monitor-rs"
version = "0.1.0"
edition = "2021"
publish = false

[dependencies]
futures = "0.3"
log = "0.4"
miniserde = "0.1"
sysinfo = "*"
tokio = { version = "1", features = ["rt", "net", "sync"] }
tokio-tungstenite = "*"
ureq = { version = "3", default-features = false }
