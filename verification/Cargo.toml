[package]
name = "daily_dashboard"
version = "0.1.0"
edition = "2021"
publish = false

[dependencies]
chrono = "0.4"
color-eyre = "0.6"
crossterm = "*"
image = { version = "*", default-features = false, features = ["png", "jpeg"] }
open = "*"
ratatui = "*"
ratatui-image = { version = "*", default-features = false }
ratatui-textarea = "*"
reqwest = { version = "0.12", default-features = false, features = ["rustls-tls"] }
serde_json = "1"
time = { version = "0.3", features = ["local-offset"] }
tokio = { version = "1", features = ["full"] }
tracing = "0.1"
whoami = "*"
