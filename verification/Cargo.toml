[package]
name = "dice_logs"
version = "0.1.0"
edition = "2021"
publish = false

[dependencies]
rand = "0.8"
log = "0.4"
opentelemetry_sdk = { version = "0.27", features = ["logs", "rt-tokio"] }
opentelemetry-otlp = { version = "0.27", default-features = false, features = ["logs", "http-proto", "reqwest-client"] }
opentelemetry-appender-log = "0.27"
tokio = { version = "1", features = ["rt-multi-thread", "macros"] }
