[package]
name = "framebatch"
version = "0.1.0"
edition = "2021"
publish = false

[dependencies]
anyhow = "1"
bytemuck = { version = "1", features = ["derive"] }
cgmath = "0.18"
log = "0.4"
palette = "0.7"
pollster = "0.4"
rand = "0.8"
wgpu = "24"
winit = "0.30"
