[package]
name = "oxidation"
version = "0.1.0"
edition = "2021"
publish = false

[dependencies]
ash = "0.38"
ash-window = "0.13"
env_logger = "0.11"
log = "0.4"
vk-mem = "0.4"
winit = "0.30"
