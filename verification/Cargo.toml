[package]
name = "chatload"
version = "0.1.0"
edition = "2021"
publish = false

[dependencies]
serde_json = "*"
chrono = "*"
nanoid = "*"
url = "*"
anyhow = "*"
tokio = { version = "*", features = ["rt-multi-thread", "macros", "time"] }
tokio-tungstenite = "*"
futures-util = "*"
atomic-counter = "*"
