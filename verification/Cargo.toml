[package]
name = "backend"
version = "0.1.0"
edition = "2021"
publish = false

[dependencies]
anyhow = "=1.0.104"
async-trait = "=0.1.92"
axum = "=0.7.9"
chrono = { version = "=0.4.45", features = ["serde"] }
dotenv = "=0.15.0"
log = "=0.4.34"
log4rs = "=1.4.0"
redis = "=0.27.6"
serde = { version = "=1.0.229", features = ["derive"] }
serde_json = "=1.0.154"
thiserror = "=1.0.69"
tokio = { version = "=1.54.1", features = ["full"] }
