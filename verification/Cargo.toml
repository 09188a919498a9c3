[package]
name = "pushover_api"
version = "0.1.0"
edition = "2021"
publish = false

[dependencies]
clap = "2"
lazy_static = "1"
reqwest = { version = "0.11", features = ["blocking"] }
serde_json = "1"
