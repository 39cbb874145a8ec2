[package]
name = "escheck"
version = "0.1.0"
edition = "2021"
publish = false

[dependencies]
anyhow = "*"
dashmap = "*"
jsonschema = { version = "*", default-features = false }
serde = { version = "*", features = ["derive"] }
serde_json = "*"
tokio = { version = "*", features = ["rt-multi-thread", "macros", "fs"] }
url = "*"
uuid = { version = "*", features = ["v4"] }
