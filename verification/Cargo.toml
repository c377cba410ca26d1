[package]
name = "toy-rpc"
version = "0.1.0"
edition = "2021"
publish = false

[dependencies]
tokio = { version = "1", features = ["io-util", "net", "rt", "sync", "time"] }
async-trait = "0.1"
futures = "0.3"
serde = { version = "1", features = ["derive"] }
bincode = "1.3"
log = "0.4"
flume = "0.11"
tungstenite = "0.17"
anyhow = "1"

[dev-dependencies]
