[package]
name = "storyteller"
version = "0.1.0"
edition = "2021"
publish = false

[dependencies]
bevy = { version = "=0.17.3", default-features = false, features = ["bevy_asset", "bevy_camera", "bevy_color", "bevy_light", "bevy_log", "bevy_mesh", "bevy_state", "bevy_window"] }
bevy_egui = { version = "=0.37.1", default-features = false }
egui_taffy = "=0.9.0"
