[package]
name = "bevy_shaders"
version = "0.1.0"
edition = "2021"
publish = false

[dependencies]
rand = "0.9"
bevy = { version = "0.16", default-features = false, features = ["bevy_color", "bevy_pbr"] }
