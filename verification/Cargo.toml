[package]
name = "bevy_vach"
version = "0.1.0"
edition = "2021"
publish = false

[dependencies]
vach = "*"
bevy_asset = "0.8"
