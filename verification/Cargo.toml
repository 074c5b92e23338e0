[package]
name = "gltut"
version = "0.1.0"
edition = "2021"
publish = false

[dependencies]
gl = "*"
glutin = "*"
glutin-winit = "*"
winit = "*"
anyhow = "*"
