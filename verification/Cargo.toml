[package]
name = "webgl_vs_webgpu"
version = "0.1.0"
edition = "2021"
publish = false

[dependencies]
bytemuck = { version = "1", features = ["derive"] }
egui = "=0.23.0"
glam = "=0.24.2"
rand = "0.8"
serde = { version = "1", features = ["derive"] }
truck-meshalgo = "=0.3.0"
truck-modeling = "=0.5.1"
wgpu = "=0.19.4"
winit = "=0.28.7"
