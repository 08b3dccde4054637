[package]
name = "session_verification"
version = "0.1.0"
edition = "2021"
publish = false

[dependencies]
futures-util = "0.3"
ruma = { version = "*", features = ["events"] }
tokio = { version = "1", features = ["rt"] }
tracing = "0.1"
uniffi = { version = "*", features = ["tokio"] }
