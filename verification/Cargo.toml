[package]
name = "mixer_bridge"
version = "0.1.0"
edition = "2021"
publish = false

[dependencies]
anyhow = "*"
obws = "*"
tokio = { version = "*", features = ["rt", "sync"] }
