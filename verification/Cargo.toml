[package]
name = "tracing_cloudwatch"
version = "0.1.0"
edition = "2021"
publish = false

[dependencies]
tokio = { version = "1", features = ["sync", "rt", "time", "macros"] }
chrono = "0.4"
tracing = "0.1"
tracing-core = "0.1"
tracing-subscriber = "0.3"
async-trait = "0.1"
anyhow = "1"
thiserror = "1"
