[package]
name = "vizia_state"
version = "0.1.0"
edition = "2021"
publish = false

[dependencies]
morphorm = "*"
vizia_storage = "*"
vizia_id = "*"
