[package]
name = "tic_tac_gpu"
version = "0.1.0"
edition = "2021"
publish = false

[dependencies]
bytemuck = "1"
env_logger = "0.9"
log = "0.4"
pollster = "0.2"
rand = "0.8"
thiserror = "1"
ultraviolet = "0.8"
wgpu = "0.12"
winit = "0.26"
