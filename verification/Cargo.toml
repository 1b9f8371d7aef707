[package]
name = "rjq"
version = "0.1.0"
edition = "2021"
publish = false

[dependencies]
uuid = { version = "1", features = ["v4"] }
redis = "*"
serde = { version = "1", features = ["derive"] }
serde_derive = "1"
serde_json = "1"
error-chain = "0.12"
