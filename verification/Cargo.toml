[package]
name = "debug_capture"
version = "0.1.0"
edition = "2021"
publish = false

[dependencies]
async-stream = "0.3"
bytes = "1"
chrono = { version = "0.4", default-features = false, features = ["now"] }
futures = "0.3"
reqwest = { version = "0.12", default-features = false }
serde_json = "1"
tokio = { version = "1", features = ["fs"] }
tracing = "0.1"
