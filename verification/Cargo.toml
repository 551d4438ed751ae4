[package]
name = "discord_gateway"
version = "0.1.0"
edition = "2021"
publish = false

[dependencies]
serde_json = "1"
percent-encoding = "2"
futures = "0.3"
hyper = { version = "0.14", features = ["client", "http1", "tcp"] }
hyper-tls = "0.5"
tokio = { version = "1", features = ["rt", "time"] }
tokio-tungstenite = "0.20"
