[package]
name = "menu_ui"
version = "0.1.0"
edition = "2021"
publish = false

[dependencies]
bevy = { version = "=0.17.3", default-features = false, features = ["bevy_ui", "bevy_text", "bevy_asset", "bevy_color", "bevy_log", "bevy_picking", "bevy_animation", "bevy_image", "experimental_bevy_ui_widgets"] }
