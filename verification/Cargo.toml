[package]
name = "humble-manager"
version = "0.1.0"
edition = "2021"
publish = false

[dependencies]
anyhow = "1"
arboard = "3"
chrono = "0.4"
crossterm = { version = "0.28", features = ["event-stream"] }
csv = "1"
directories = "5"
futures = "0.3"
fuzzy-matcher = "0.3"
open = "5"
ratatui = "0.29"
reqwest = { version = "0.12", default-features = false, features = ["json", "gzip", "rustls-tls"] }
rusqlite = { version = "0.32", features = ["bundled"] }
serde = { version = "1", features = ["derive"] }
serde_json = "1"
tokio = { version = "1", features = ["full"] }
toml = "0.8"
tracing = "0.1"
tracing-appender = "0.2"
tracing-subscriber = "0.3"
urlencoding = "2"
uuid = { version = "1", features = ["v4"] }
