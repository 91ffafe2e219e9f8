[package]
name = "gravity_sim"
version = "0.1.0"
edition = "2021"
publish = false

[dependencies]
glam = "0.30"
rand = "0.9"
wgpu = "24"
winit = "0.30"
anyhow = "1"
log = "0.4"
simplelog = "0.12"
async-std = "1"
bytemuck = { version = "1", features = ["derive"] }
derive_builder = "0.20"
