[package]
name = "ragnarok"
version = "0.1.0"
edition = "2021"
publish = false

[dependencies]
glium = "0.32"
winit = "0.27"
imgui = "0.11"
imgui-glium-renderer = "0.11"
imgui-winit-support = "0.11"
nalgebra-glm = "0.18"
