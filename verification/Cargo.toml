[package]
name = "repose_bevy"
version = "0.1.0"
edition = "2021"
publish = false

[dependencies]
parking_lot = "0.12"
web-time = "=1.1.0"
repose-core = "~0.24"
repose-app = "~0.24"
repose-ui = "~0.24"
repose-text = "~0.24"
repose-render-wgpu = "~0.24"
