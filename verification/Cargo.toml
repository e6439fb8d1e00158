[package]
name = "greachers"
version = "0.1.0"
edition = "2021"
publish = false

[dependencies]
rand = { version = "0.8", features = ["small_rng"] }
rand_xoshiro = "0.6"
paste = "1"
bevy = { version = "0.8", default-features = false, features = ["render", "bevy_asset", "bevy_winit", "png", "x11"] }
bevy_rapier2d = "0.16"
