[package]
name = "bevy_xr"
version = "0.1.0"
edition = "2021"
publish = false

[dependencies]
serde = { version = "1", features = ["derive"] }
serde_json = "1"
glam = "*"
openxr = { version = "*", default-features = false }
bevy_app = "=0.9.1"
bevy_ecs = "=0.9.1"
