[package]
name = "seilespill"
version = "0.1.0"
edition = "2021"
publish = false

[dependencies]
ron = { version = "0.8" }
serde = { version = "1", features = ["derive"] }
serde_json = { version = "1" }
thiserror = { version = "1" }
