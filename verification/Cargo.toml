[package]
name = "q_manager"
version = "0.1.0"
edition = "2021"
publish = false

[dependencies]
regex = "*"
serde_json = "*"
rand = "*"
url = "*"
uuid = { version = "*", features = ["v4"] }
