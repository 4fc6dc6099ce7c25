[package]
name = "voxel_viewer"
version = "0.1.0"
edition = "2021"
publish = false

[dependencies]
glium = "0.34"
rand = "0.8"
serde = { version = "1", features = ["derive"] }
serde_json = "1"
winit = "0.29"
