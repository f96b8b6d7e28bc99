[package]
name = "flyer_control"
version = "0.1.0"
edition = "2021"
publish = false

[dependencies]
multiqueue = "0.3"
num = "0.4"
serde = { version = "1", features = ["derive"] }
serde_json = "1"
toml = "0.8"
vecmath = "*"
