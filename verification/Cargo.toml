[package]
name = "open_eyes"
version = "0.1.0"
edition = "2021"
publish = false

[dependencies]
serde = { version = "=1.0.229", features = ["derive"] }
serde_json = "=1.0.154"
toml = "=1.1.8"
rusqlite = "=0.41.1"
csv = "=1.4.0"
reqwest = { version = "=0.12.28", default-features = false, features = ["json", "rustls-tls"] }
tokio = { version = "=1.54.1", features = ["rt-multi-thread", "macros", "time"] }
clap = { version = "=4.6.7", features = ["derive"] }
dotenvy = "=0.15.7"

[dev-dependencies]
tempfile = "=3.27.0"
