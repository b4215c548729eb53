[package]
name = "stdout_channel"
version = "0.1.0"
edition = "2021"
publish = false

[dependencies]
deadqueue = "*"
tokio = { version = "*", features = ["rt", "io-std", "io-util", "sync"] }
anyhow = "*"
