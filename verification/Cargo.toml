[package]
name = "viewer_core"
version = "0.1.0"
edition = "2021"
publish = false

[dependencies]
bevy = { version = "0.9", default-features = false, features = ["bevy_asset", "bevy_winit", "bevy_core_pipeline", "bevy_pbr", "bevy_render", "x11"] }
