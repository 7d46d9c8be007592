[package]
name = "include_dir_backend"
version = "0.1.0"
edition = "2021"
publish = false

[dependencies]
include_dir = { version = "=0.7.4", features = ["metadata"] }
tokio = { version = "=1.53.2", features = ["io-util"] }
futures-util = "=0.3.34"
