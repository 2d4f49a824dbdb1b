[package]
name = "simpfun_sdk"
version = "0.1.0"
edition = "2021"
publish = false

[dependencies]
arc-swap = "1"
flume = "0.11"
futures-util = { version = "0.3", features = ["sink"] }
reqwest = { version = "0.12", default-features = false, features = ["json", "rustls-tls"] }
serde = { version = "1", features = ["derive"] }
serde_json = "1"
serde_urlencoded = "0.7"
thiserror = "1"
tokio = { version = "1", features = ["rt-multi-thread", "macros", "time", "sync"] }
tokio-tungstenite = "0.24"
tracing = "0.1"
