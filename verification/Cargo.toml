[package]
name = "indite"
version = "0.1.0"
edition = "2021"
publish = false

[dependencies]
anyhow = "*"
ash = "*"
bytemuck = "*"
ctrlc = "*"
glam = "*"
openxr = { version = "*", default-features = false, features = ["loaded"] }
wgpu = { version = "*", features = ["vulkan", "wgsl"] }
