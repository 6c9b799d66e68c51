[package]
name = "tracelink"
version = "0.1.0"
edition = "2021"
publish = false

[dependencies]
opentelemetry_sdk = "0.18"
tokio = { version = "1", features = ["macros", "rt-multi-thread", "time"] }
tracing = "0.1"
tracing-opentelemetry = "0.18"
tracing-subscriber = { version = "0.3", features = ["env-filter"] }
