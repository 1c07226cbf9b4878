[package]
name = "material_geek"
version = "0.1.0"
edition = "2021"
publish = false

[dependencies]
serde = { version = "=1.0.229", features = ["derive"] }
wgpu = "=30.0.1"
ab_glyph = "=0.2.32"
winit = "0.30"
pollster = "1"
log = "0.4"
