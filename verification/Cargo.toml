[package]
name = "instanced_renderer"
version = "0.1.0"
edition = "2021"
publish = false

[dependencies]
anyhow = "=1.0.104"
cgmath = "=0.18.0"
shaderc = "=0.10.1"
wgpu = { version = "=30.0.1", features = ["spirv"] }
winit = "=0.30.13"
