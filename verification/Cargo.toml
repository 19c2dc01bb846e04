[package]
name = "opentelemetry_sdk"
version = "0.1.0"
edition = "2021"
publish = false

[dependencies]
async-channel = "*"
async-trait = "*"
bytes = "=1.12.1"
futures = "=0.3.34"
http = "=1.5.0"
http-body-util = "*"
hyper-util = { version = "*", features = ["client-legacy", "http1", "tokio"] }
serde = { version = "=1.0.229", features = ["derive"] }
serde_json = "=1.0.154"
tokio = { version = "=1.54.1", features = ["rt", "sync", "time"] }
tokio-stream = "*"
