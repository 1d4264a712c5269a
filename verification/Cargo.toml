[package]
name = "free_camera"
version = "0.1.0"
edition = "2021"
publish = false

[dependencies]
bevy = { version = "=0.15.3", default-features = false, features = ["bevy_core_pipeline", "bevy_window"] }
bevy-butler = "=0.5.7"
