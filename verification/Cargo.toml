[package]
name = "safehouse_render"
version = "0.1.0"
edition = "2021"
publish = false

[dependencies]
image = { version = "=0.25.10", default-features = false, features = ["png", "jpeg"] }
wgpu = "=30.0.1"
winit = "=0.30.13"
glam = "=0.34.1"
futures = "=0.3.34"
