[package]
name = "dialogue_storage"
version = "0.1.0"
edition = "2021"
publish = false

[dependencies]
futures = "0.3"
redis = "0.16"
serde = { version = "1", features = ["derive"] }
serde_json = "1"
thiserror = "1"
