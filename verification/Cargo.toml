[package]
name = "rust_lambda_runtime"
version = "0.1.0"
edition = "2021"
publish = false

[dependencies]
serde = "*"
serde_json = "*"
http_req = "*"
