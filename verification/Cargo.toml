[package]
name = "nextui_updater"
version = "0.1.0"
edition = "2021"
publish = false

[dependencies]
egui_sdl2_gl = { version = "=0.33.2", default-features = false }
