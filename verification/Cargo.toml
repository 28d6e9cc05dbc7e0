[package]
name = "physics_bridge"
version = "0.1.0"
edition = "2021"
publish = false

[dependencies]
rapier3d = "=0.4.2"
bevy = { version = "0.15", default-features = false, features = ["bevy_asset", "bevy_core_pipeline", "bevy_gltf", "bevy_pbr", "bevy_render", "bevy_scene"] }
