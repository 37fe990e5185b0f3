[package]
name = "misfire"
version = "0.1.0"
edition = "2021"
publish = false

[dependencies]
winit = "0.30"
glutin = "0.32"
glam = "0.29"
stb_image = "0.3"
gl = "0.14"
