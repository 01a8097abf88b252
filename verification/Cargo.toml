[package]
name = "phs_backend"
version = "0.1.0"
edition = "2021"
publish = false

[dependencies]
base64 = "0.22"
hex = "0.4"
sha2 = "0.10"
rand_chacha = "0.3"
rand_core = { version = "0.6", features = ["getrandom"] }
time = "0.3"
axum = "0.7"
tokio = { version = "1", features = ["full"] }
tower-cookies = { version = "0.10", features = ["signed"] }
tower-layer = "0.3"
tower-service = "0.3"
deadpool-redis = "0.18"
serde = { version = "1", features = ["derive"] }
serde_json = "1"
thiserror = "1"
tracing = "0.1"
