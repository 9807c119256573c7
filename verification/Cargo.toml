[package]
name = "mcp_http_core"
version = "0.1.0"
edition = "2021"
publish = false

[dependencies]
serde = { version = "1", features = ["derive"] }
serde_json = "1"
tokio = { version = "1", features = ["full"] }
axum = "*"
tracing = "0.1"
tracing-subscriber = { version = "*", features = ["env-filter"] }
dotenvy = "*"
chrono = "*"
