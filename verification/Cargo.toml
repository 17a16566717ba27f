[package]
name = "egui_wgpu"
version = "0.21.0"
edition = "2021"
publish = false

[dependencies]
tracing = "0.1"
wgpu = "0.15"
winit = { version = "0.28", default-features = false, features = ["x11"] }
