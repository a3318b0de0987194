[package]
name = "gargoyle-web-monitor"
version = "0.1.0"
edition = "2021"
publish = false

[dependencies]
log = "0.4"
reqwest = { version = "0.12", features = ["blocking"] }
