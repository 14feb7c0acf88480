[package]
name = "vst3_host"
version = "0.1.0"
edition = "2021"
publish = false

[dependencies]
vst3 = "*"
libloading = "*"
winit = "0.30"
raw-window-handle = "0.6"
