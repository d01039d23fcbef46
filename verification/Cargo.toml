[package]
name = "patoka"
version = "0.1.0"
edition = "2021"
publish = false

[dependencies]
ash = { version = "0.38", default-features = false, features = ["std", "debug", "loaded"] }
ash-window = { version = "0.13" }
vk-mem = { version = "0.4" }
winit = { version = "0.29" }
