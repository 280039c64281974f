[package]
name = "raytracer"
version = "0.1.0"
edition = "2021"
publish = false

[dependencies]
libm = "0.2"
rayon = "1"
image = { version = "*", default-features = false }
show-image = "*"
