[package]
name = "porto"
version = "0.1.0"
edition = "2021"
publish = false

[dependencies]
hex = "0.4"
secp256k1 = { version = "0.28", features = ["rand-std"] }
rand = "0.8"
sha3 = "0.10"
uuid = { version = "1", features = ["v4"] }
url = "2"
axum = "0.7"
tokio = { version = "1", features = ["full"] }
tokio-stream = "0.1"
tower-http = { version = "0.5", features = ["cors"] }
futures-util = "0.3"
serde = { version = "1", features = ["derive"] }
serde_json = "1"
thiserror = "1"
clap = { version = "4", features = ["derive"] }
console = "0.15"
dialoguer = "0.11"
indicatif = "0.17"
webbrowser = "1"
