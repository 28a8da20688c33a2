[package]
name = "pong_core"
version = "0.1.0"
edition = "2021"
publish = false

[dependencies]
bevy = { version = "0.7", default-features = false, features = ["bevy_audio", "bevy_winit", "render", "wav", "x11"] }
