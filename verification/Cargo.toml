[package]
name = "adventures"
version = "0.1.0"
edition = "2021"
publish = false

[dependencies]
axum = "0.4"
http-body = "=0.4.6"
serde = { version = "=1.0.229", features = ["derive"] }
validator = "=0.16.1"
