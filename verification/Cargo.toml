[package]
name = "hibiki"
version = "0.1.0"
edition = "2021"
publish = false

[dependencies]
catppuccin-egui = "=5.0.0"
egui-notify = "=0.13.0"
env_logger = "=0.11.11"
rfd = "=0.13.0"
rodio = { version = "=0.21.1", default-features = false, features = ["flac", "mp3", "vorbis", "wav"] }
ron = "=0.8.1"
serde = { version = "=1.0.229", features = ["derive"] }
