[package]
name = "farm_actor"
version = "0.1.0"
edition = "2021"
publish = false

[dependencies]
bevy = { version = "0.16", default-features = false, features = ["std", "bevy_asset", "bevy_color", "bevy_core_pipeline", "bevy_log", "bevy_render", "bevy_sprite", "bevy_state", "bevy_window"] }
bevy_ecs_tilemap = "0.16"
rand = "0.8"
thiserror = "2"
tiled = "0.14"
