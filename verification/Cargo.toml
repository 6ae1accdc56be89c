[package]
name = "smartboard"
version = "0.1.0"
edition = "2021"
publish = false

[dependencies]
image = { version = "*", default-features = false, features = ["png", "ico"] }
egui = "*"
winit = "*"
dirs = "*"
pollster = "*"
rfd = "*"
tray-icon = "*"
