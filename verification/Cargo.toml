[package]
name = "app_coordinator"
version = "0.1.0"
edition = "2021"
publish = false

[dependencies]
kurbo = "0.9"
winit = { version = "0.29", default-features = false, features = ["x11"] }
