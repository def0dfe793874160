[package]
name = "wsprobe"
version = "0.1.0"
edition = "2021"
publish = false

[dependencies]
anyhow = "1"
clap = { version = "4", features = ["derive", "env"] }
futures = "0.3"
log = "0.4"
public-ip = "0.2"
tokio = { version = "1", features = ["full"] }
tokio-tungstenite = "0.21"
tokio-util = "0.7"
tracing-subscriber = { version = "0.3", features = ["env-filter"] }
url = "2"
