[package]
name = "slim_shader"
version = "0.1.0"
edition = "2021"
publish = false

[dependencies]
naga = { version = "*", features = ["wgsl-in"] }
wgpu = "*"
winit = "*"
notify = "*"
pollster = "*"
env_logger = "*"
bytemuck = { version = "*", features = ["derive"] }
