[package]
name = "ace"
version = "0.1.0"
edition = "2021"
publish = false

[dependencies]
anyhow = "1"
polars = { version = "*", default-features = false, features = ["json"] }
reqwest = { version = "0.12", default-features = false, features = ["rustls-tls", "cookies", "json"] }
serde = { version = "1", features = ["derive"] }
serde_json = "1"
thiserror = "*"
tokio = { version = "1", features = ["full"] }
tokio-stream = "0.1"
tracing = "0.1"
url = "2"
