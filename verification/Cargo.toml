[package]
name = "wireguard_manager"
version = "0.1.0"
edition = "2021"
publish = false

[dependencies]
failure = "0.1"
hyper = "0.14"
serde = { version = "1", features = ["derive"] }
serde_json = "1"
serde_yaml = "0.9"
tokio = { version = "1", features = ["fs", "io-util", "process"] }
