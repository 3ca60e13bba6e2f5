[package]
name = "egui_skia_winit"
version = "0.1.0"
edition = "2021"
publish = false

[dependencies]
egui = "*"
egui-winit = "*"
skia-safe = "*"
