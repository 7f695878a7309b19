[package]
name = "hap"
version = "0.1.0"
edition = "2021"
publish = false

[dependencies]
erased-serde = "0.3"
futures = "0.3"
serde = { version = "1.0", features = ["derive"] }
serde_json = "1.0"
