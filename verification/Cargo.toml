[package]
name = "walkingpad"
version = "0.1.0"
edition = "2021"
publish = false

[dependencies]
anyhow = "*"
btleplug = "*"
tokio = { version = "*", features = ["macros", "rt-multi-thread", "time", "signal"] }
tokio-stream = "*"
