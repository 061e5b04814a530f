[package]
name = "strwb"
version = "0.1.0"
edition = "2021"
publish = false

[dependencies]
bytemuck = { version = "1", features = ["derive"] }
glam = "0.30"
glfw = "*"
image = { version = "0.25", default-features = false, features = ["jpeg", "png"] }
pollster = "0.4"
wgpu = "27"
