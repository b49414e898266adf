[package]
name = "winisland_window"
version = "0.1.0"
edition = "2021"
publish = false

[dependencies]
pulldown-cmark = { version = "=0.13.6", default-features = false }
winit = "0.30"
