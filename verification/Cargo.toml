[package]
name = "telnet_nvt"
version = "0.1.0"
edition = "2021"
publish = false

[dependencies]
bytes = "1"
futures = "0.3"
tokio = { version = "1", default-features = false }
tokio-util = { version = "0.7", features = ["codec"] }
