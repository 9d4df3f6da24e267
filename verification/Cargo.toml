[package]
name = "horizon_logger"
version = "0.1.0"
edition = "2021"
publish = false

[dependencies]
chrono = "0.4"
colored = "2"
thread-id = "4"
tracing-subscriber = { version = "0.3", features = ["env-filter"] }
