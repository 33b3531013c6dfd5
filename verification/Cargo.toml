[package]
name = "spotatui"
version = "0.1.0"
edition = "2021"
publish = false

[dependencies]
url = "2"
serde = { version = "1", features = ["derive"] }
serde_json = "1"
anyhow = "1"
log = "0.4"
futures = "0.3"
tokio = { version = "1", features = ["full"] }
tokio-tungstenite = "*"
reqwest = "*"
rspotify = "*"
mlua = { version = "*", features = ["lua54", "vendored", "serialize"] }
ratatui = "*"
open = "*"
tempfile = "3"
