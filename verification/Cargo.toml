[package]
name = "raytracer"
version = "0.1.0"
edition = "2021"
publish = false

[dependencies]
anyhow = "1"
bytemuck = { version = "1", features = ["derive"] }
pollster = { version = "0.4", features = ["macro"] }
wgpu = "22"
winit = "0.30"
