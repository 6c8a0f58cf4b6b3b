[package]
name = "qdrant_registry"
version = "0.1.0"
edition = "2021"
publish = false

[dependencies]
qdrant-client = "*"
serde = { version = "*", features = ["derive"] }
serde_json = "*"
anyhow = "*"

[dev-dependencies]
tokio = { version = "*", features = ["rt", "rt-multi-thread"] }
