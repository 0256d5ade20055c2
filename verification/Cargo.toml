[package]
name = "bevy_tray_icon"
version = "0.1.0"
edition = "2021"
publish = false

[dependencies]
bevy = { version = "*", default-features = false, features = ["bevy_asset"] }
tray-icon = "*"
thiserror = "*"
