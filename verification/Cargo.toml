[package]
name = "load_engine"
version = "0.1.0"
edition = "2021"
publish = false

[dependencies]
tokio-util = "*"
rand = "*"
