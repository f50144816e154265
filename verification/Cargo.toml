[package]
name = "nautilus_server"
version = "0.1.0"
edition = "2021"
publish = false

[dependencies]
prometheus = "*"
chrono = "*"
tokio = { version = "*", features = ["rt-multi-thread", "macros", "net", "time"] }
reqwest = { version = "*", default-features = false }
axum = "*"
tower-http = { version = "*", features = ["cors"] }
anyhow = "*"
tracing = "*"
tracing-subscriber = "*"

[dev-dependencies]
serde_json = "*"
