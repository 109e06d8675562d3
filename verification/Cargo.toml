[package]
name = "sync_backfill"
version = "0.1.0"
edition = "2021"
publish = false

[dependencies]
chrono = { version = "=0.4.45", features = ["serde"] }
futures-concurrency = "=7.7.1"
serde = { version = "=1.0.229", features = ["derive"] }
serde_json = "=1.0.151"
thiserror = "=2.0.21"
tokio = { version = "=1.53.2", features = ["fs", "io-util", "rt", "macros", "sync", "time"] }
uuid = { version = "=1.27.0", features = ["v4", "serde"] }
zeroize = { version = "=1.9.1", features = ["zeroize_derive"] }
