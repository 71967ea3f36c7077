[package]
name = "tiled_bevy_isometric"
version = "0.1.0"
edition = "2021"
publish = false

[dependencies]
bevy = { version = "=0.17.3", default-features = false, features = ["std", "async_executor", "multi_threaded", "bevy_asset", "bevy_color", "bevy_core_pipeline", "bevy_gizmos", "bevy_log", "bevy_render", "bevy_image", "bevy_camera", "bevy_sprite", "bevy_text", "bevy_ui", "bevy_window"] }
bevy_ecs_tiled = "0.10"
