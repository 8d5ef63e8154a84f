[package]
name = "api"
version = "0.1.0"
edition = "2021"
publish = false

[dependencies]
uuid = { version = "=1.29.0", features = ["v4", "v7", "serde"] }
chrono = "=0.4.45"
argon2 = "=0.6.0"
password-hash = "=0.6.1"
serde = { version = "=1.0.229", features = ["derive"] }
serde_json = "=1.0.154"
axum = "=0.8.9"
tokio = { version = "=1.54.1", features = ["full"] }
deadpool-redis = "=0.23.1"
redis = "=1.8.1"
tracing = "=0.1.44"
tracing-subscriber = { version = "=0.3.23", features = ["env-filter"] }
sea-orm = { version = "=1.1.20", default-features = false, features = ["macros", "with-uuid", "with-chrono", "with-json"] }
scylla = "=1.9.0"
webrtc = "=0.21.1"
rtc = "=0.21.1"
async-trait = "=0.1.92"
axum-client-ip = "=1.3.1"
