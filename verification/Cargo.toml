[package]
name = "hpts"
version = "0.1.0"
edition = "2021"
publish = false

[dependencies]
httparse = "1"
tokio = { version = "1", features = ["net", "io-util", "rt-multi-thread", "macros"] }
futures = "0.3"
clap = "2"
env_logger = "0.10"
log = "0.4"
