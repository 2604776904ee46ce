[package]
name = "frontend_server"
version = "0.1.0"
edition = "2021"
publish = false

[dependencies]
axum = "0.7"
serde = { version = "1", features = ["derive"] }
serde_json = "1"
tokio = { version = "1", features = ["net", "rt"] }
tracing = "0.1"
uuid = { version = "1", features = ["v4"] }
