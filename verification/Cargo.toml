[package]
name = "shared_bus"
version = "0.1.0"
edition = "2021"
publish = false

[dependencies]
critical-section = { version = "*", features = ["std"] }
embedded-hal = "*"
