[package]
name = "rzap"
version = "0.1.0"
edition = "2021"
publish = false

[dependencies]
reqwest = "0.11.27"
serde_json = "1.0"
