[package]
name = "logline"
version = "1.0.0"
edition = "2021"
publish = false

[dependencies]
serde = { version = "1", features = ["derive"] }
serde_json = "1"
nanoid = "0.4"
tracing = "0.1"
tracing-appender = "0.2"
tracing-subscriber = "0.3"
