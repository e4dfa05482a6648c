[package]
name = "face_anim"
version = "0.1.0"
edition = "2021"
publish = false

[dependencies]
embedded-graphics = "*"
rand = "*"
serde = { version = "*", features = ["derive"] }
serde_json = "*"
sdl2 = "*"
