[package]
name = "brush_editor"
version = "0.1.0"
edition = "2021"
publish = false

[dependencies]
ash = "*"
bytemuck = { version = "*", features = ["derive"] }
dotenv = "*"
egui_dock = "*"
glam = "*"
