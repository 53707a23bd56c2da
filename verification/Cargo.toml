[package]
name = "teaclave_management"
version = "0.1.0"
edition = "2021"
publish = false

[dependencies]
uuid = { version = "*", features = ["v4"] }
url = "*"
serde = { version = "*", features = ["derive"] }
