[package]
name = "replicate_rust"
version = "0.1.0"
edition = "2021"
publish = false

[dependencies]
serde_json = "1"
reqwest = { version = "0.11", features = ["blocking"] }
