[package]
name = "cubic"
version = "0.1.0"
edition = "2021"
publish = false

[dependencies]
anyhow = "1"
egui = "0.31"
egui-wgpu = "0.31"
egui-winit = "0.31"
pollster = "0.4"
serde = { version = "1", features = ["derive"] }
toml = "0.8"
wgpu = "=24.0.5"
wgpu-types = "=24.0.0"
winit = "0.30"
