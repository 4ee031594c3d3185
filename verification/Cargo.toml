[package]
name = "voltbridge"
version = "0.1.0"
edition = "2021"
publish = false

[dependencies]
log = "*"
rand = "*"
rumqtt = "*"
serde = { version = "*", features = ["derive"] }
serde_json = "*"
simplelog = "*"
