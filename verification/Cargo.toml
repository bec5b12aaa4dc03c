[package]
name = "motorsim"
version = "0.1.0"
edition = "2021"
publish = false

[dependencies]
nalgebra = "0.32"
eframe = { version = "0.22", default-features = false, features = ["default_fonts", "glow"] }
