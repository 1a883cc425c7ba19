[package]
name = "touhou_shmup"
version = "0.1.0"
edition = "2021"
publish = false

[dependencies]
rand = "=0.8.8"
serde = { version = "=1.0.229", features = ["derive"] }
ron = "=0.10.1"
bevy = { version = "=0.17.3", default-features = false, features = ["std", "multi_threaded", "bevy_asset", "bevy_camera", "bevy_color", "bevy_image", "bevy_window", "bevy_log", "bevy_sprite", "bevy_text", "bevy_ui", "bevy_state"] }
