[package]
name = "cohere_adapter"
version = "0.1.0"
edition = "2021"
publish = false

[dependencies]
secrecy = "0.8"
reqwest = { version = "0.12", default-features = false }
tokio = { version = "1", default-features = false, features = ["time"] }

[dev-dependencies]
serde_json = "1"
