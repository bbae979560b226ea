[package]
name = "peprunner"
version = "0.1.0"
edition = "2021"
publish = false

[dependencies]
async-channel = "2"
chrono = { version = "0.4", features = ["serde"] }
csv = "1"
gtk4 = "0.9"
serde = { version = "1", features = ["derive"] }
serde_json = "1"
serial = "0.4"
