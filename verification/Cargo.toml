[package]
name = "babylonia_terminal_sdk"
version = "0.1.0"
edition = "2021"
publish = false

[dependencies]
anyhow = "*"
dirs = "*"
downloader = "*"
flate2 = "*"
log = "*"
tar = "*"
tokio = { version = "*", features = ["full"] }
wincompatlib = "*"
xz = "*"

[dev-dependencies]
serde_json = "*"
