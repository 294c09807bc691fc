[package]
name = "egui_ash"
version = "0.1.0"
edition = "2021"
publish = false

[dependencies]
ash = "*"
ash-window = "*"
egui = "*"
egui-winit = { version = "*", default-features = false, features = ["x11"] }
glam = "*"
gpu-allocator = "*"
log = "*"
raw-window-handle = "*"
