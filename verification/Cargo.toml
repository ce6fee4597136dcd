[package]
name = "aviation"
version = "0.1.0"
edition = "2021"
publish = false

[dependencies]
rand = "=0.9.5"
crossbeam-channel = "=0.5.17"
eyre = "=0.6.14"
bevy = { version = "=0.19.1", default-features = false, features = ["std", "bevy_asset", "bevy_color", "bevy_log", "bevy_state", "bevy_window", "bevy_sprite", "bevy_text", "bevy_ui", "bevy_gizmos", "png"] }
