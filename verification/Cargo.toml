[package]
name = "particle_sandbox"
version = "0.1.0"
edition = "2021"
publish = false

[dependencies]
bytemuck = { version = "1", features = ["derive"] }
cgmath = "0.18"
image = "0.25"
log = "0.4"
pollster = "0.4"
pretty_env_logger = "0.5"
rand = "0.9"
wgpu = "24"
winit = "0.30"
