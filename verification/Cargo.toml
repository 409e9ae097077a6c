[package]
name = "rabbit_hole"
version = "0.1.0"
edition = "2021"
publish = false

[dependencies]
glfw = "*"
glm = "*"
