[package]
name = "discord_tui"
version = "0.1.0"
edition = "2021"
publish = false

[dependencies]
anyhow = "1"
crossterm = "0.25"
futures = "0.3"
futures-util = "0.3"
serde_json = "1"
tokio = { version = "1", features = ["full"] }
tokio-stream = { version = "0.1", features = ["time"] }
tokio-tungstenite = "0.18"
tui = "0.19"
url = "2"
