[package]
name = "kv_router"
version = "0.1.0"
edition = "2021"
publish = false

[dependencies]
anyhow = "1"
async-stream = "0.3"
dashmap = "6"
futures = "0.3"
prometheus = { version = "0.14", default-features = false }
serde_json = "1"
tokio = { version = "1", features = ["macros", "rt", "sync", "time"] }
tracing = "0.1"
