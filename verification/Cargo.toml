[package]
name = "tjaele"
version = "0.1.0"
edition = "2021"
publish = false

[dependencies]
nvml-wrapper = "*"
rustc-hash = "*"
chrono = { version = "0.4", features = ["serde"] }
anyhow = "1"
serde = { version = "1", features = ["derive"] }
serde_json = "1"
serde_with = "3"
toml = "*"
clap = { version = "4", features = ["derive"] }
tokio = { version = "1", features = ["full"] }
tokio-util = "*"
hyper = { version = "1", features = ["server", "client", "http1"] }
hyper-util = { version = "*", features = ["tokio"] }
http-body-util = "*"
tracing = "0.1"
tracing-log = "*"
tracing-subscriber = "*"
