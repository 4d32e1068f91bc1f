[package]
name = "ip_api"
version = "0.1.0"
edition = "2021"
publish = false

[dependencies]
serde_json = "1"
hyper = "0.12"
futures = "0.1"
error-chain = "0.12"
