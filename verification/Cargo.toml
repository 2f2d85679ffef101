[package]
name = "wgpu_scene"
version = "0.1.0"
edition = "2021"
publish = false

[dependencies]
bytemuck = { version = "1", features = ["derive"] }
glam = "0.30"
log = "0.4"
parking_lot = "0.12"
pollster = "0.4"
wgpu = "26"
winit = "0.30"
