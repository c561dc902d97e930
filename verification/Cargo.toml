[package]
name = "mollysocket"
version = "0.1.0"
edition = "2021"
publish = false

[dependencies]
url = "2"
futures-channel = "0.3"
tokio-tungstenite = "*"
reqwest = { version = "*", default-features = false }
tokio = { version = "1", features = ["rt", "macros"] }
clap = { version = "4", features = ["derive"] }
env_logger = "*"
