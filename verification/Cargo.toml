[package]
name = "bili_cli"
version = "0.1.0"
edition = "2021"
publish = false

[dependencies]
anyhow = "=1.0.104"
clap = "=4.6.7"
dialoguer = "=0.12.0"
dirs = "=7.0.0"
futures = "=0.3.34"
image = "*"
indicatif = "=0.17.11"
itertools = "*"
opener = "*"
qr2term = "*"
qrcode = "*"
regex = "=1.13.1"
reqwest = { version = "=0.13.5", features = ["stream"] }
serde_json = "=1.0.154"
tokio = { version = "=1.54.1", features = ["full"] }
tokio-util = { version = "=0.7.20", features = ["io"] }
uuid = { version = "*", features = ["v4"] }
