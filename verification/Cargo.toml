[package]
name = "ios_bridge"
version = "0.1.0"
edition = "2021"
publish = false

[dependencies]
anyhow = "*"
image = "*"
tokio = { version = "*", features = ["rt-multi-thread"] }
