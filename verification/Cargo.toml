[package]
name = "wizard_battle"
version = "0.1.0"
edition = "2021"
publish = false

[dependencies]
ambient_api = { version = "=0.2.1", features = ["client", "server"] }
