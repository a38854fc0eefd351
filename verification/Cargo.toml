[package]
name = "span_exporter"
version = "0.1.0"
edition = "2021"
publish = false

[dependencies]
opentelemetry = "0.21"
opentelemetry_sdk = { version = "0.21", features = ["rt-tokio"] }
opentelemetry-datadog = { version = "0.9", features = ["reqwest-client"] }
reqwest = { version = "0.11", default-features = false }
tracing = "0.1"
tracing-opentelemetry = "0.22"
tracing-subscriber = "0.3"
