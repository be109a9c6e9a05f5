[package]
name = "rust_gpu_life"
version = "0.1.0"
edition = "2021"
publish = false

[dependencies]
env_logger = "=0.9.3"
futures = "=0.3.34"
glam = "=0.34.1"
spirv-builder = { version = "=0.11.0", default-features = false }
spirv-std = "=0.11.0"
wgpu = "=0.9.0"
winit = "=0.25.0"
