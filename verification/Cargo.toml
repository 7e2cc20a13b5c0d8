[package]
name = "cube_baby"
version = "0.1.0"
edition = "2021"
publish = false

[dependencies]
fastrand = "=2.5.0"
bevy = { version = "=0.19.1", default-features = false, features = ["bevy_winit", "bevy_window", "bevy_asset", "bevy_state", "bevy_image", "bevy_sprite", "x11", "png"] }
