[package]
name = "rust_engine"
version = "0.1.0"
edition = "2021"
publish = false

[dependencies]
anyhow = "=1.0.104"
axum = "=0.8.9"
base64 = "=0.23.1"
chrono = { version = "=0.4.45", features = ["serde"] }
dotenv = "=0.15.0"
libc = "=0.2.190"
serde = { version = "=1.0.229", features = ["derive"] }
sysinfo = "=0.39.6"
tempfile = "=3.27.0"
tokio = { version = "=1.53.2", features = ["rt-multi-thread", "macros", "net", "time", "process", "sync", "io-util"] }
tower-http = { version = "=0.7.1", features = ["cors"] }
tracing = "=0.1.44"
tracing-subscriber = "=0.3.23"
zip = { version = "=8.6.0", default-features = false, features = ["deflate"] }
