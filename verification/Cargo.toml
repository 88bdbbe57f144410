[package]
name = "vox_core"
version = "0.1.0"
edition = "2021"
publish = false

[dependencies]
binary-greedy-meshing = "=0.3.6"
cgmath = "=0.18.0"
bytemuck = { version = "=1.25.2", features = ["derive"] }
wgpu = "=22.1.0"
winit = "=0.30.13"
image = { version = "=0.25.10", default-features = false, features = ["png"] }
anyhow = "=1.0.104"
pollster = "=0.3.0"
bevy_ecs = "0.14"
glyphon = "0.6"
tobj = "4"
