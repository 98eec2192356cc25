[package]
name = "ad_server"
version = "0.1.0"
edition = "2021"
publish = false

[dependencies]
dotenv = "0.15"
futures = "0.1"
futures-cpupool = "0.1"
hyper = "0.11"
jsonwebtoken = { version = "9", default-features = false }
log = "0.4"
serde = { version = "1", features = ["derive"] }
serde_json = "1"
tokio-core = "0.1"
tokio-timer = "0.1"
unicase = "2"
url = "1.7"
