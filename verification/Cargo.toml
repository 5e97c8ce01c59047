[package]
name = "soundboard_core"
version = "0.1.0"
edition = "2021"
publish = false

[dependencies]
global-hotkey = "*"
rodio = "=0.19.0"
winit = "=0.29.15"
