[package]
name = "co2_alert"
version = "0.1.0"
edition = "2021"
publish = false

[dependencies]
serde_json = "*"
serde_yaml = "*"
reqwest = { version = "*", default-features = false, features = ["blocking"] }
