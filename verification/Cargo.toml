[package]
name = "opencode_rs"
version = "0.1.0"
edition = "2021"
publish = false

[dependencies]
backon = "1"
futures = "0.3"
reqwest = { version = "0.12", default-features = false, features = ["json", "stream"] }
reqwest-eventsource = "0.6"
serde = { version = "1", features = ["derive"] }
serde_json = "1"
tokio = { version = "1", features = ["rt-multi-thread", "macros", "sync", "time"] }
tokio-util = "0.7"
tracing = "0.1"
