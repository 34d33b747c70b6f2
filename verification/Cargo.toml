[package]
name = "pong"
version = "0.1.0"
edition = "2021"
publish = false

[dependencies]
amethyst = { version = "0.15", default-features = false, features = ["audio", "renderer", "vulkan"] }
log = "0.4"
rand = "0.7"
ron = "0.6"
serde = { version = "1", features = ["derive"] }
