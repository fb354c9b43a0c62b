[package]
name = "logs"
version = "0.1.0"
edition = "2021"
publish = false

[dependencies]
log = "0.4"
time = { version = "0.3", features = ["formatting"] }
