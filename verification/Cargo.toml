[package]
name = "space_invaders"
version = "0.1.0"
edition = "2021"
publish = false

[dependencies]
awedio = "0.8"
env_logger = "0.11"
log = "0.4"
pixels = "0.17"
winit = "0.30"
