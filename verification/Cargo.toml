[package]
name = "caching_tee"
version = "0.1.0"
edition = "2021"
publish = false

[dependencies]
anyhow = "1"
async-compression = { version = "0.4", features = ["tokio", "zstd"] }
async-stream = "0.3"
env_logger = "0.11"
log = "0.4"
pretty_assertions = "1"
tokio = { version = "1", features = ["fs", "io-util", "rt"] }
tokio-stream = "0.1"
tokio-util = { version = "0.7", features = ["io"] }
