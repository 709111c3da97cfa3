[package]
name = "knight_jumper"
version = "0.1.0"
edition = "2021"
publish = false

[dependencies]
bevy = { version = "=0.17.3", default-features = false, features = ["std", "bevy_asset", "bevy_camera", "bevy_color", "bevy_image", "bevy_log", "bevy_sprite", "bevy_state", "bevy_window", "png"] }
avian2d = { version = "=0.4.1", default-features = false, features = ["2d", "f32", "parry-f32"] }
bevy_ecs_tiled = { version = "=0.10.0", default-features = false, features = ["avian", "render", "user_properties"] }
moonshine-kind = { version = "=0.4.0" }
