[package]
name = "opencubes"
version = "0.1.0"
edition = "2021"
publish = false

[dependencies]
ash = "0.37"
ash-window = "0.11"
winit = "0.27"
log = "0.4"
env_logger = "0.9"
