[package]
name = "accesscore"
version = "0.1.0"
edition = "2021"
publish = false

[dependencies]
base64 = "=0.22.1"
bcrypt = "=0.15.1"
hmac = "=0.12.1"
sha2 = "=0.10.9"
rand = "=0.8.8"
nanoid = "=0.4.0"
chrono = "=0.4.45"
validator = "=0.18.1"
zxcvbn = "=3.1.1"
axum = "=0.7.9"
tokio = { version = "1", features = ["rt-multi-thread", "macros", "net", "signal", "sync", "time"] }
serde = { version = "1", features = ["derive"] }
serde_json = "1"
scylla = "=0.13.2"
redis = { version = "1", features = ["tokio-comp", "aio"] }
redis_pool = "=0.10.1"
dotenv = "0.15"
tracing = "0.1"
tracing-subscriber = "0.3"
tower-http = { version = "=0.5.2", features = ["limit", "timeout", "trace"] }
