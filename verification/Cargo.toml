[package]
name = "oxido"
version = "0.1.0"
edition = "2021"
publish = false

[dependencies]
anyhow = "1"
bytemuck = { version = "1", features = ["derive"] }
glow = "*"
glutin = "0.32"
glutin-winit = "0.5"
log = "0.4"
nalgebra-glm = "*"
simple_logger = "*"
winit = "0.30"
