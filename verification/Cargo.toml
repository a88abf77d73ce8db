[package]
name = "dialog"
version = "0.1.0"
edition = "2021"
publish = false

[dependencies]
crossterm = "*"
tracing = "*"
tracing-appender = "*"
tracing-subscriber = { version = "*", features = ["env-filter"] }
