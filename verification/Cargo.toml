[package]
name = "clay-viewer"
version = "0.1.0"
edition = "2021"
publish = false

[dependencies]
sdl2 = "*"
nalgebra = "*"
image = { version = "*", default-features = false, features = ["png", "jpeg"] }
rental = "*"
clay-core = "*"
