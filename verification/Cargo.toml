[package]
name = "hydrabadger"
version = "0.1.0"
edition = "2021"
publish = false

[dependencies]
bincode = "1"
bytes = "0.5"
futures = "0.3"
hbbft = "*"
rand = "0.6"
serde = { version = "1", features = ["derive"] }
serde_bytes = "0.10"
tokio = { version = "0.2", features = ["tcp", "io-util"] }
tokio-util = { version = "0.2", features = ["codec"] }
uuid = { version = "0.8", features = ["v4", "serde"] }
