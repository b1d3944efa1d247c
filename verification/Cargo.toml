[package]
name = "inference-core"
version = "0.0.1"
edition = "2021"
publish = false

[dependencies]
hound = "3"
rubato = "0.16"
whisper-rs = "0.16"
axum = "0.8"
tokio = { version = "1", features = ["full"] }
serde = { version = "1", features = ["derive"] }
serde_json = "1"
rmp-serde = "1"
anyhow = "1"
tracing = "0.1"
tracing-subscriber = { version = "0.3", features = ["env-filter"] }
clap = { version = "4", features = ["derive"] }
hyper = { version = "1", features = ["client", "http1"] }
hyper-util = { version = "0.1", features = ["client-legacy", "http1", "tokio"] }
http-body-util = "0.1"
hyperlocal = "0.9"
async-trait = "0.1"
