[package]
name = "hermit_engine"
version = "0.1.0"
edition = "2021"
publish = false

[dependencies]
wgpu = "*"
winit = "*"
log = "*"
env_logger = "*"
pollster = "*"
