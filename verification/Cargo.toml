[package]
name = "transfer_core"
version = "0.1.0"
edition = "2021"
publish = false

[dependencies]
ash = "*"
glfw = "*"
serde = { version = "*", features = ["derive"] }
serde_json = "*"
vk-mem = "*"
