[package]
name = "sensillum"
version = "0.1.0"
edition = "2021"
publish = false

[dependencies]
async-stream = "0.3"
futures-util = "0.3"
hostname = "0.3"
hyper = { version = "0.14", features = ["full"] }
rust-embed = "8"
serde_json = "1"
sha2 = "0.10"
tokio = { version = "1", features = ["full"] }
tokio-tungstenite = "0.21"
