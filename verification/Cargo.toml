[package]
name = "bevy_mod_erased_component_registry"
version = "0.1.0"
edition = "2021"
publish = false

[dependencies]
bevy_platform = "*"
bevy_ecs = "*"
