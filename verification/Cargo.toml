[package]
name = "content_registry"
version = "0.1.0"
edition = "2021"
publish = false

[dependencies]
avian2d = "0.3"
bevy = { version = "0.16", default-features = false, features = ["std", "async_executor", "bevy_asset", "bevy_color", "bevy_core_pipeline", "bevy_log", "bevy_render", "bevy_sprite", "bevy_state", "bevy_window", "multi_threaded", "png"] }
bevy_asset_loader = "0.23"
proc-macro2 = "1"
quote = "1"
serde = { version = "1", features = ["derive"] }
serde_json = "1"
syn = { version = "2", features = ["full"] }
thiserror = "2"
