[package]
name = "framecore"
version = "0.1.0"
edition = "2021"
publish = false

[dependencies]
slotmap = "*"
ash = "*"
ash-window = "*"
winit = "*"
gpu-allocator = "*"
shaderc = "*"
bytemuck = "*"
log = "*"
raw-window-handle = "*"
