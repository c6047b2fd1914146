[package]
name = "liveboard"
version = "0.1.0"
edition = "2021"
publish = false

[dependencies]
axum = "=0.8.9"
password-auth = "*"
serde = { version = "=1.0.229", features = ["derive"] }
tokio = { version = "=1.53.2", features = ["full"] }
tokio-stream = "=0.1.19"
