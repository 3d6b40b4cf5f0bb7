[package]
name = "eyre"
version = "0.1.0"
edition = "2021"
publish = false

[dependencies]
anyhow = "=1.0.104"
backtrace = "0.3"
serde = "=1.0.229"
tracing-error = "=0.2.1"
