[package]
name = "gui_bridge"
version = "0.1.0"
edition = "2021"
publish = false

[dependencies]
bevy = { version = "=0.14.2", default-features = false, features = ["bevy_asset"] }
imgui = "=0.12.0"
