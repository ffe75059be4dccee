[package]
name = "nightfall"
version = "0.1.0"
edition = "2021"
publish = false

[dependencies]
mp4 = "*"
serde = { version = "1", features = ["derive"] }
serde_json = "1"
uuid = { version = "0.8", features = ["v4"] }
tokio = { version = "1", features = ["full"] }
tokio-stream = { version = "0.1", features = ["io-util"] }
slog = "2"
tracing = "0.1"
lazy_static = "1"
nix = "0.26"
psutil = "3"
async-trait = "0.1"
err-derive = "0.3"
cfg-if = "1"
