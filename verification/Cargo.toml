[package]
name = "shack"
version = "0.1.0"
edition = "2021"
publish = false

[dependencies]
log = "0.4"
anyhow = "1"
lapin = { version = "2", default-features = false }
tokio = { version = "1", features = ["rt", "sync"] }
futures = "0.3"
serde = { version = "1", features = ["derive"] }
serde_json = "1"
chrono = { version = "0.4", features = ["serde"] }
