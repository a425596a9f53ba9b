[package]
name = "chronicle_core"
version = "0.1.0"
edition = "2021"
publish = false

[dependencies]
git2 = { version = "*", default-features = false }
chrono = "*"
serde = { version = "*", features = ["derive"] }
serde_json = "*"
tokio = { version = "*", features = ["rt-multi-thread", "process", "io-util", "sync", "time", "macros"] }
notify = "*"
walkdir = "*"

[dev-dependencies]
tempfile = "*"
