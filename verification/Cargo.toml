[package]
name = "bind"
version = "0.1.0"
edition = "2021"
publish = false

[dependencies]
http = "0.1"
tokio-core = "0.1"
futures = "0.1"
tower-service = "0.1"
tower-reconnect = "*"
tower-h2 = "*"
tower = "*"
