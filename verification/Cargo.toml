[package]
name = "wcad"
version = "0.1.0"
edition = "2021"
publish = false

[dependencies]
nalgebra = { version = "0.32", features = ["serde-serialize"] }
serde = { version = "1", features = ["derive"] }
serde_json = "1"
svg = "0.14"
dxf = "0.6"
base64 = "0.22"
lyon = "1"
wgpu = "0.19"
bytemuck = { version = "1", features = ["derive"] }
pollster = "0.3"
env_logger = "0.11"
gtk4 = { version = "0.8", features = ["v4_10"] }
libadwaita = "0.6"
pango = "0.19"
pangocairo = "0.19"
