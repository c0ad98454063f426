[package]
name = "govee"
version = "0.6.0"
edition = "2021"
publish = false

[dependencies]
async-trait = "=0.1.92"
reqwest = { version = "=0.12.28", default-features = false, features = ["json", "rustls-tls", "charset"] }
serde = { version = "=1.0.229", features = ["derive"] }
serde_json = "=1.0.154"
socket2 = "=0.6.5"
thiserror = "=2.0.21"
tokio = { version = "=1.54.1", features = ["full"] }
tokio-util = "=0.7.20"
toml = "=0.9.12"
tracing = "=0.1.44"
uuid = { version = "=1.29.0", features = ["v4"] }
