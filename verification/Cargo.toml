[package]
name = "pixelframe"
version = "0.1.0"
edition = "2021"
publish = false

[dependencies]
winit = { version = "0.29", features = ["rwh_05"] }
