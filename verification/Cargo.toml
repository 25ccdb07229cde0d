[package]
name = "castru"
version = "0.1.0"
edition = "2021"
publish = false

[dependencies]
serde_json = "1"
tokio = { version = "1", features = ["rt-multi-thread", "net", "io-util", "fs", "process", "sync", "time", "macros"] }
rustls = { version = "0.21", features = ["dangerous_configuration"] }
tokio-rustls = "0.24"
crossterm = "0.27"
mdns-sd = "0.11"
librqbit = { version = "=9.0.1", default-features = false }
librqbit-core = { version = "=9.0.1", default-features = false, features = ["sha1-crypto-hash"] }
librqbit-sha1-wrapper = { version = "=9.0.1", default-features = false, features = ["sha1-crypto-hash"] }
uuid = { version = "1", features = ["v4"] }
log = "0.4"
simplelog = "0.12"
bstr = "1"
