[package]
name = "fps_engine"
version = "0.1.0"
edition = "2021"
publish = false

[dependencies]
macroquad = "0.4"
nalgebra = "0.33"
parry3d = "0.17"
