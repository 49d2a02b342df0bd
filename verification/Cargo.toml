[package]
name = "render_core"
version = "0.1.0"
edition = "2021"
publish = false

[dependencies]
wgpu = "*"
winit = { version = "*", default-features = false, features = ["rwh_06", "x11"] }
egui = "*"
egui-wgpu = "*"
egui-winit = { version = "*", default-features = false }
bevy_ecs = { version = "*", default-features = false, features = ["std"] }
glam = "*"
bytemuck = { version = "*", features = ["derive"] }
image = { version = "*", default-features = false, features = ["png"] }
tobj = "*"
serde = { version = "*", features = ["derive"] }
serde_json = "*"
anyhow = "*"
log = "*"
env_logger = { version = "*", default-features = false }
pollster = "*"
