[package]
name = "openrouter-rs"
version = "0.11.0"
edition = "2021"
publish = false

[dependencies]
serde = { version = "1", features = ["derive"] }
serde_json = "1"
urlencoding = "2"
futures-util = "0.3"
derive_builder = "0.20"
reqwest = { version = "0.12", default-features = false, features = ["json", "stream", "rustls-tls"] }
