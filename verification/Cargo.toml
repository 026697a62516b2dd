[package]
name = "image_effects"
version = "0.1.0"
edition = "2021"
publish = false

[dependencies]
image = "*"
imageproc = "*"
pyo3 = "*"
