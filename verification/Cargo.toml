[package]
name = "webgpu_sandbox"
version = "0.1.0"
edition = "2021"
publish = false

[dependencies]
gltf = "*"
nalgebra-glm = "*"
