[package]
name = "lens"
version = "0.1.0"
edition = "2021"
publish = false

[dependencies]
wgpu = "0.12"
winit = "0.26"
pollster = "0.2"
env_logger = "0.9"
image = "0.24"
tobj = "3"
bytemuck = { version = "1", features = ["derive"] }
