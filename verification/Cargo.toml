[package]
name = "nutt_web"
version = "0.1.0"
edition = "2021"
publish = false

[dependencies]
anyhow = "1"
base64ct = { version = "1", features = ["alloc"] }
chrono = "0.4"
rustls = { version = "0.23", default-features = false, features = ["ring", "std", "tls12", "logging"] }
serde = { version = "1", features = ["derive"] }
serde_json = "1"
tokio = { version = "1", features = ["full"] }
tokio-rustls = { version = "0.26", default-features = false, features = ["ring", "tls12", "logging"] }
tracing-log = "0.2"
tracing-subscriber = "0.3"
whirlpool = "0.10"
