[package]
name = "slashook"
version = "0.1.0"
edition = "2021"
publish = false

[dependencies]
hex = "=0.4.3"
ring = "=0.17.14"
base64 = "=0.22.1"
infer = "=0.22.0"
serde = { version = "=1.0.229", features = ["derive"] }
serde_json = "=1.0.154"
serde_repr = "0.1"
anyhow = "=1.0.104"
thiserror = "=2.0.21"
chrono = "=0.4.45"
tokio = { version = "=1.54.1", features = ["rt-multi-thread", "macros", "sync", "fs", "io-util"] }
reqwest = { version = "=0.12.28", default-features = false, features = ["json", "multipart", "rustls-tls"] }
rocket = "=0.5.2"
common-multipart-rfc7578 = "=0.7.0"
tokio-util = { version = "=0.7.20", features = ["io"] }
bytes = "=1.12.1"
