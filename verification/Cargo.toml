[package]
name = "keyboard_shortcuts"
version = "0.1.0"
edition = "2021"
publish = false

[dependencies]
serde = { version = "=1.0.229", features = ["derive"] }
bevy = { version = "=0.19.1", default-features = false, features = ["keyboard"] }
