[package]
name = "fretboard_theory"
version = "0.1.0"
edition = "2021"
publish = false

[dependencies]
derive-getters = "0.5"
eframe = { version = "0.31", default-features = false, features = ["default_fonts", "glow", "x11"] }
