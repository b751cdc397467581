[package]
name = "indexer_service"
version = "0.1.0"
edition = "2021"
publish = false

[dependencies]
serde_json = "1"
serde = { version = "1", features = ["derive"] }
axum = "*"
reqwest = { version = "*", default-features = false }
tracing = "*"
