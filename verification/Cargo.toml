[package]
name = "pointer_input"
version = "0.1.0"
edition = "2021"
publish = false

[dependencies]
bevy_ecs = "=0.13.2"
bevy_math = { version = "=0.13.2", features = ["serialize"] }
bevy_reflect = "=0.13.2"
bevy_window = "=0.13.2"
serde = { version = "=1.0.229", features = ["derive"] }
winit = { version = "=0.29.15", default-features = false, features = ["rwh_06", "x11"] }
