[package]
name = "render_sandbox"
version = "0.1.0"
edition = "2021"
publish = false

[dependencies]
bezier-nd = "*"
bytemuck = { version = "*", features = ["derive"] }
cgmath = "*"
geo-nd = "*"
pollster = "*"
rand = "*"
raw-window-handle = "*"
wgpu = "0.20"
winit = "0.30"
