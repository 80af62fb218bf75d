[package]
name = "statig"
version = "0.1.0"
edition = "2021"
publish = false

[dependencies]
serde = { version = "1", features = ["derive"] }
bevy_ecs = { version = "0.12", default-features = false }
