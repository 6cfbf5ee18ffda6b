[package]
name = "provider_registry"
version = "0.1.0"
edition = "2021"

[dependencies]
dirs = "5"
serde_json = { version = "1", features = ["preserve_order"] }
