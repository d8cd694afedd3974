[package]
name = "reuseport"
version = "0.1.0"
edition = "2021"
publish = false

[dependencies]
anyhow = "=1.0.104"
axum = "=0.8.9"
socket2 = { version = "=0.5.10", features = ["all"] }
tokio = { version = "=1.53.2", features = ["net", "rt", "rt-multi-thread", "macros", "io-util", "time"] }
