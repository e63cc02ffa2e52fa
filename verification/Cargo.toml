[package]
name = "eclss"
version = "0.1.0"
edition = "2021"
publish = false

[dependencies]
anyhow = "*"
axum = "*"
clap = { version = "*", features = ["derive", "env"] }
embedded-hal = "*"
embedded-hal-async = "*"
humantime = "*"
linux-embedded-hal = "*"
tokio = { version = "*", features = ["full"] }
tracing = "*"
tracing-subscriber = "*"
