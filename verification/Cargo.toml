[package]
name = "interphace"
version = "0.1.0"
edition = "2021"
publish = false

[dependencies]
smithay-client-toolkit = "0.17"
wayland-client = "0.30"
glutin = "0.30"
raw-window-handle = "0.5"
skia-safe = { version = "0.58", features = ["gl"] }
env_logger = "0.10"
