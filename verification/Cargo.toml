[package]
name = "nexus_host"
version = "0.1.0"
edition = "2021"
publish = false

[dependencies]
libloading = "*"
tokio = { version = "*", features = ["rt-multi-thread", "macros", "signal"] }
tracing = "*"
tracing-subscriber = "*"
