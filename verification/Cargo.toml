[package]
name = "splatnet_ping"
version = "1.0.0"
edition = "2021"
publish = false

[dependencies]
log = "0.4"
reqwest = { version = "*", features = ["blocking"] }
serde_json = "1"
simplelog = "*"
