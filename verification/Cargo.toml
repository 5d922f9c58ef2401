[package]
name = "blend_load"
version = "0.1.0"
edition = "2021"
publish = false

[dependencies]
smallvec = "1"
serde = { version = "1", features = ["derive"] }
ron = "0.8"
glam = "0.24"
anyhow = "1"
