[package]
name = "yoursfm"
version = "0.1.0"
edition = "2021"
publish = false

[dependencies]
axum = "0.7"
bytes = "1"
clap = { version = "4", features = ["cargo", "env"] }
rand = "0.8"
reqwest = { version = "0.12", default-features = false, features = ["json", "rustls-tls"] }
serde = { version = "1", features = ["derive"] }
serde_json = "1"
serde_yaml = "0.9"
sqlx = { version = "0.8", default-features = false, features = ["sqlite", "runtime-tokio", "migrate"] }
tokio = { version = "1", features = ["full"] }
tokio-stream = { version = "0.1", features = ["sync"] }
urlencoding = "2"
uuid = { version = "1", features = ["v4", "v5"] }
