[package]
name = "opencode"
version = "0.13.0"
edition = "2021"
publish = false

[dependencies]
uuid = { version = "1", features = ["v7"] }
axum = "0.8"
reqwest = { version = "0.12", default-features = false, features = ["rustls-tls"] }
tokio = { version = "1", features = ["full"] }
serde = { version = "1", features = ["derive"] }
serde_json = "1"
tracing = "0.1"
async-trait = "0.1"
thiserror = "2"
futures = "0.3"
tokio-stream = "0.1"
sqlx = { version = "0.8", default-features = false, features = ["sqlite", "runtime-tokio"] }
