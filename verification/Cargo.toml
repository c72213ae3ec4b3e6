[package]
name = "learn_opengl"
version = "0.1.0"
edition = "2021"
publish = false

[dependencies]
anyhow = "1"
gl = "0.14"
glutin = "0.28"
image = "0.23"
nalgebra-glm = "*"
rand = "0.7"
tobj = "2"
winit = "0.26"
