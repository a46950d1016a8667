[package]
name = "simple_tunnel"
version = "0.1.0"
edition = "2021"
publish = false

[dependencies]
tokio = { version = "1", features = ["rt-multi-thread", "net", "io-util", "time", "macros"] }
log = "0.4"
env_logger = "0.10"
structopt = "0.3"
