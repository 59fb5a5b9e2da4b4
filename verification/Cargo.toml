[package]
name = "confluence"
version = "0.1.0"
edition = "2021"
publish = false

[dependencies]
reqwest = { version = "*", default-features = false, features = ["blocking", "cookies", "multipart"] }
serde = { version = "*", features = ["derive"] }
serde_json = "*"
