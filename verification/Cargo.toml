[package]
name = "bindless_sample"
version = "0.1.0"
edition = "2021"
publish = false

[dependencies]
anyhow = "1"
ash = "0.38"
glam = "0.30"
smallvec = "1"
winit = "0.30"

[dev-dependencies]
approx = "0.5"
