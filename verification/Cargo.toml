[package]
name = "sandbox_net"
version = "0.1.0"
edition = "2021"
publish = false

[dependencies]
anyhow = "1"
base64-url = "*"
futures = "0.3"
hyper = { version = "0.14", features = ["full"] }
rtnetlink = "*"
serde = { version = "1", features = ["derive"] }
serde_json = "1"
url = "2"
