[package]
name = "lazer_refraction_renderer"
version = "0.1.0"
edition = "2021"
publish = false

[dependencies]
bytemuck = { version = "=1.25.2", features = ["derive"] }
egui = "=0.37.0"
encase = { version = "=0.11.2", features = ["glam"] }
glam = { version = "=0.30.10", features = ["bytemuck"] }
macro_rules_attribute = "=0.2.3"
macroquad = "=0.4.16"
web-time = "=1.1.0"
wgpu = "=30.0.1"
