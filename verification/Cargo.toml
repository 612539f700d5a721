[package]
name = "opensource"
version = "0.1.0"
edition = "2021"
publish = false

[dependencies]
serde_json = "=1.0.151"
url = "=2.5.8"
hyper = { version = "=1.12.0", features = ["client", "http1"] }
hyper-util = { version = "*", features = ["tokio"] }
http-body-util = "*"
tokio = { version = "*", features = ["full"] }
