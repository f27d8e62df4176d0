[package]
name = "bevy_mod_time_travel"
version = "0.1.0"
edition = "2021"
publish = false

[dependencies]
bevy_ecs = "=0.18.1"
bevy_animation = { version = "=0.18.1", default-features = false }
