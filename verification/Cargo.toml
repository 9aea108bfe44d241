[package]
name = "frame_engine"
version = "0.1.0"
edition = "2021"
publish = false

[dependencies]
vulkano = "0.11"
vulkano-shaders = "0.11"
vulkano-win = "0.11"
winit = "0.18"
image = "0.20"
tobj = "0.1"
glm = "0.2"
