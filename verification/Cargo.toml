[package]
name = "qcomms"
version = "0.1.0"
edition = "2021"
publish = false

[dependencies]
bincode = "1"
serde = { version = "1", features = ["derive"] }
tokio = { version = "1", features = ["net", "io-util", "rt", "rt-multi-thread", "macros"] }
async-channel = "2"
