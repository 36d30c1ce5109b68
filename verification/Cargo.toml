[package]
name = "spectra"
version = "0.1.0"
edition = "2021"
publish = false

[dependencies]
glsl = "*"
image = { version = "*", default-features = false, features = ["png", "jpeg"] }
luminance = "*"
chrono = "*"
