[package]
name = "geyser"
version = "0.1.0"
edition = "2021"
publish = false

[dependencies]
ash = "=0.38.0"
gpu-allocator = { version = "=0.27.0", default-features = false, features = ["vulkan"] }
wgpu-types = "=23.0.0"
thiserror = "=1.0.69"
