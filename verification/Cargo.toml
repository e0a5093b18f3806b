[package]
name = "whiteboard"
version = "0.1.0"
edition = "2021"
publish = false

[dependencies]
bytemuck = { version = "1", features = ["derive"] }
egui = "0.31"
egui-wgpu = "0.31"
egui-winit = "0.31"
egui_extras = { version = "0.31", features = ["image"] }
glyphon = "0.8"
pollster = "0.4"
winit = "0.30"
