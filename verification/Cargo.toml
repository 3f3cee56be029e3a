[package]
name = "ai-content-service"
version = "0.1.0"
edition = "2021"
publish = false

[dependencies]
anyhow = "=1.0.104"
axum = "=0.7.9"
chrono = "=0.4.45"
reqwest = { version = "0.12", default-features = false, features = ["json", "rustls-tls"] }
serde = { version = "=1.0.229", features = ["derive"] }
tokio = { version = "=1.54.1", features = ["full"] }
tower-http = { version = "=0.5.2", features = ["cors", "trace"] }
tracing = "=0.1.44"
tracing-subscriber = "=0.3.23"
uuid = { version = "=1.29.0", features = ["v4"] }
