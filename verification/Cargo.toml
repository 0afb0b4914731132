[package]
name = "epsilon_core"
version = "0.1.0"
edition = "2021"
publish = false

[dependencies]
tokio = { version = "1", features = ["full"] }
wtransport = "*"
rustls = "0.23"
rustls-native-certs = "0.8"
