[package]
name = "sentinel-rs"
version = "0.1.0"
edition = "2021"
publish = false

[dependencies]
color-eyre = "0.6"
thiserror = "1.0"
tokio = { version = "1", features = ["macros", "rt-multi-thread"] }
tracing = "0.1"
tracing-appender = "0.2"
tracing-subscriber = "0.3"
