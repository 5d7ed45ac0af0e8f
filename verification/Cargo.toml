[package]
name = "easy_imgui"
version = "0.1.0"
edition = "2021"
publish = false

[dependencies]
anyhow = "1"
winit = "0.28"
glutin = "0.30"
glutin-winit = "0.3"
raw-window-handle = "0.5"
