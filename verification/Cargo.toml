[package]
name = "snake_engine"
version = "0.1.0"
edition = "2021"
publish = false

[dependencies]
rand = "0.9"
dotenvy = "0.15"
bevy = { version = "0.17", default-features = false, features = ["bevy_sprite", "bevy_ui", "bevy_text", "bevy_window", "bevy_color"] }
