[package]
name = "raytracer"
version = "0.1.0"
edition = "2021"
publish = false

[dependencies]
image = "0.24"
vulkano = "0.33"
vulkano-win = "0.33"
winit = "0.28"
