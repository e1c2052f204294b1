[package]
name = "clearloop"
version = "0.1.0"
edition = "2021"
publish = false

[dependencies]
wgpu = "0.12"
winit = { version = "0.26", default-features = false, features = ["x11"] }
env_logger = "0.9"
pollster = "0.3"
