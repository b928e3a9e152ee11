[package]
name = "vk_bootstrap"
version = "0.1.0"
edition = "2021"
publish = false

[dependencies]
ash = { version = "0.37", default-features = false, features = ["loaded"] }
ash-window = "0.12"
raw-window-handle = "0.5"
winit = { version = "0.28", default-features = false, features = ["x11"] }
