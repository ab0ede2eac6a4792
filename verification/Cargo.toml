[package]
name = "rust_utils"
version = "0.1.0"
edition = "2021"
publish = false

[dependencies]
async-nats = "=0.51.0"
error-stack = "=0.5.0"
futures = "=0.3.34"
governor = "=0.10.4"
reqwest = { version = "=0.12.28", default-features = false }
rustls = { version = "=0.23.46", default-features = false, features = ["ring", "std"] }
serde = { version = "=1.0.229", features = ["derive"] }
serde_json = "=1.0.154"
thiserror = "=2.0.21"
tokio = { version = "=1.54.1", features = ["macros", "rt-multi-thread", "signal", "sync", "time"] }
tokio-util = { version = "=0.7.20", features = ["rt"] }
tracing = "=0.1.44"
