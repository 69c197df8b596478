[package]
name = "imgui_vulkano_renderer"
version = "0.1.0"
edition = "2021"
publish = false

[dependencies]
vulkano = "0.32"
imgui = "0.11"
bytemuck = { version = "1", features = ["derive"] }
