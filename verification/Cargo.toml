[package]
name = "presentation"
version = "0.1.0"
edition = "2021"
publish = false

[dependencies]
uuid = { version = "1", features = ["v4"] }
rand = "0.4"
reqwest = { version = "0.12", features = ["blocking", "json", "multipart"] }
threadpool = "1"
log = "0.4"
serde = { version = "1", features = ["derive"] }
