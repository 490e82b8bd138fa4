[package]
name = "project_aurora"
version = "0.1.0"
edition = "2021"

[dependencies]
egui = "=0.37.0"
egui_glow = "=0.37.0"
glow = "=0.17.0"
projectm = "=3.1.2"
sdl2 = "=0.38.0"
