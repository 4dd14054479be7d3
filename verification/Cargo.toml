[package]
name = "frame_core"
version = "0.1.0"
edition = "2021"
publish = false

[dependencies]
gfx-hal = "*"
serde = { version = "*", features = ["derive"] }
toml = "*"
