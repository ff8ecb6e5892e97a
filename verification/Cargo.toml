[package]
name = "session_sync"
version = "0.1.0"
edition = "2021"
publish = false

[dependencies]
anyhow = "1"
async-trait = "0.1"
serde = { version = "1", features = ["derive"] }
tokio = { version = "1", features = ["rt", "sync"] }
tokio-util = { version = "0.7", features = ["rt"] }
uuid = { version = "1", features = ["serde", "v4"] }
