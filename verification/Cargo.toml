[package]
name = "woz_dispatch"
version = "0.1.0"
edition = "2021"
publish = false

[dependencies]
axum = { version = "=0.8.9", features = ["ws"] }
getrandom = "=0.4.3"
serde = { version = "=1.0.229", features = ["derive"] }
serde_json = "=1.0.154"
tokio = { version = "=1.54.1", features = ["sync", "time", "macros", "rt", "net"] }
tracing = "=0.1.44"
uuid = { version = "=1.29.0", features = ["v4"] }
