[package]
name = "forge_runtime"
version = "0.1.0"
edition = "2021"
publish = false

[dependencies]
sha3 = "0.10"
hex = "0.4"
serde = { version = "1", features = ["derive"] }
serde_json = "1"
regex = "1"
walkdir = "2"
anyhow = "1"
tracing = "0.1"

[dev-dependencies]
tempfile = "3"
