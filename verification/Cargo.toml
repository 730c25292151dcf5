[package]
name = "bevy_shooter"
version = "0.1.0"
edition = "2021"
publish = false

[dependencies]
bevy = { version = "=0.19.1", default-features = false, features = ["std", "multi_threaded", "bevy_asset", "bevy_sprite_render", "bevy_ui_render", "bevy_text", "default_font"] }
