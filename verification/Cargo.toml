[package]
name = "tough"
version = "0.1.0"
edition = "2021"
publish = false

[dependencies]
chrono = { version = "0.4", features = ["serde"] }
hex = "0.4"
olpc-cjson = "*"
pem = "*"
ring = "*"
serde = { version = "1", features = ["derive"] }
serde_json = "1"
url = "2"
