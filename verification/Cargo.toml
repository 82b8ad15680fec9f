[package]
name = "consul-api"
version = "0.1.0"
edition = "2021"
publish = false

[dependencies]
reqwest = { version = "0.12", default-features = false, features = ["json", "charset", "http2"] }
serde = { version = "1", features = ["derive"] }
serde_json = "1"
anyhow = "1"
