[package]
name = "notion_core"
version = "0.1.0"
edition = "2021"
publish = false

[dependencies]
semver = "1"
httpdate = "1"
serde = { version = "1", features = ["derive"] }
serde_json = "1"
tempfile = "3"
reqwest = { version = "0.12", default-features = false, features = ["blocking"] }
