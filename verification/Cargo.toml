[package]
name = "fourwarder"
version = "0.1.0"
edition = "2021"
publish = false

[dependencies]
matrix-sdk = { version = "0.4", default-features = false, features = ["native-tls"] }
serde = { version = "1", features = ["derive"] }
serde_json = "1"
tokio = { version = "1", features = ["rt-multi-thread", "macros"] }
toml = "0.5"
tracing-subscriber = "*"
url = "2"
