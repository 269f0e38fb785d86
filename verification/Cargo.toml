[package]
name = "starfield"
version = "0.1.0"
edition = "2021"
publish = false

[dependencies]
bytemuck = { version = "1", features = ["derive"] }
cfg-if = "1"
env_logger = "0.11"
log = "0.4"
pollster = "0.4"
rand = { version = "0.8", features = ["small_rng"] }
web-time = "1"
wgpu = "23"
winit = "0.30"
