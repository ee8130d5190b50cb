[package]
name = "deferred_renderer"
version = "0.1.0"
edition = "2021"
publish = false

[dependencies]
ash = "*"
ash-window = "*"
gpu-allocator = "*"
nalgebra = "*"
raw-window-handle = "*"
winit = "*"
approx = "*"
