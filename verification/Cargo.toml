[package]
name = "tile_compositor"
version = "0.1.0"
edition = "2021"
publish = false

[dependencies]
bytemuck = "1"
image = { version = "0.23", default-features = false, features = ["gif", "png"] }
log = "0.4"
serde = { version = "1", features = ["derive"] }
serde_json = "1"
tokio = { version = "1", features = ["rt", "macros"] }
wgpu = "0.12"
winit = "0.26"
