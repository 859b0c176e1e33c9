[package]
name = "pslinkb"
version = "0.1.0"
edition = "2021"
publish = false

[dependencies]
serde = { version = "1", features = ["derive"] }
serde_json = "1"
toml = "*"
thiserror = "*"
clap = { version = "4", features = ["derive"] }
tokio = { version = "1", features = ["full"] }
reqwest = { version = "0.12", default-features = false, features = ["rustls-tls", "json"] }
futures-util = "0.3"
async-trait = "0.1"
owo-colors = { version = "4", features = ["supports-colors"] }
hickory-proto = "*"
qrcode = "*"
rustls = { version = "0.23", default-features = false, features = ["ring", "std"] }
blivemsg = "*"
rtmp-rs = "*"
