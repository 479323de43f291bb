[package]
name = "smart_road"
version = "0.1.0"
edition = "2021"
publish = false

[dependencies]
rand = "0.8"
sdl2 = "0.37"
image = { version = "0.25", default-features = false, features = ["png", "jpeg"] }
rusttype = "0.9"
