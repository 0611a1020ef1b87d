[package]
name = "customer_profile"
version = "0.1.0"
edition = "2021"
publish = false

[dependencies]
uuid = { version = "1", features = ["v4"] }
chrono = { version = "0.4", default-features = false, features = ["clock", "std"] }
rand = "0.8"
serde = { version = "1", features = ["derive"] }
serde_json = "1"
async-trait = "0.1"
thiserror = "2"
anyhow = "1"
tokio = { version = "1", features = ["macros", "rt-multi-thread", "net", "signal"] }
axum = { version = "0.8", features = ["multipart"] }
tower-http = { version = "0.6", features = ["request-id", "trace", "limit", "timeout", "util"] }
tracing = "0.1"
tracing-subscriber = { version = "0.3", features = ["env-filter", "json"] }
validator = { version = "0.20", features = ["derive"] }
utoipa = { version = "5", features = ["uuid", "chrono"] }
metrics = "0.24"
metrics-exporter-prometheus = { version = "0.17", default-features = false }
