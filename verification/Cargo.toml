[package]
name = "retry_future"
version = "0.1.0"
edition = "2021"
publish = false

[dependencies]
anyhow = "*"
futures = "*"
pin-project = "*"
tokio = { version = "*", features = ["time"] }
