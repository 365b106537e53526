[package]
name = "avsocket"
version = "0.1.0"
edition = "2021"
publish = false

[dependencies]
anyhow = "1"
bincode = "1.3"
futures = "0.3"
serde = "1"
tokio = { version = "1", features = ["net", "rt", "rt-multi-thread"] }
tokio-util = { version = "0.7", features = ["codec"] }
uuid = { version = "1", features = ["v4"] }
