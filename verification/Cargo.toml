[package]
name = "vkrs"
version = "0.1.0"
edition = "2021"
publish = false

[dependencies]
ash = "=0.36.0"
ash-window = "=0.9.1"
winit = "=0.25.0"
glam = "=0.20.5"
log = "=0.4.34"
env_logger = "=0.9.3"
