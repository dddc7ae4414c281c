[package]
name = "livehls"
version = "0.1.0"
edition = "2021"
publish = false

[dependencies]
async-trait = "=0.1.92"
bytes = "=1.12.1"
failure = "=0.1.8"
lazy_static = "1"
log = "=0.4.34"
prometheus = { version = "*", default-features = false }
serde_json = "1"
tokio = { version = "=1.54.1", features = ["rt", "sync", "fs", "io-util", "net"] }
toml = "*"
xflv = "=0.4.5"
xmpegts = "=0.2.5"
