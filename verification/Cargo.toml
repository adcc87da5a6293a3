[package]
name = "reckoning"
version = "0.1.0"
edition = "2021"
publish = false

[dependencies]
bevy = { version = "=0.9.1", default-features = false, features = ["bevy_asset", "bevy_winit", "render", "x11"] }
bevy_ecs_ldtk = { version = "=0.5.0", default-features = false }
bevy_rapier2d = { version = "=0.19.0", default-features = false, features = ["dim2"] }
float-ord = "=0.3.2"
iyes_loopless = "=0.9.1"
