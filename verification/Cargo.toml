[package]
name = "media_metadata"
version = "0.1.0"
edition = "2021"
publish = false

[dependencies]
base64 = "0.22"
id3 = "1"
lofty = "0.18"
mp4ameta = "0.11"
serde = { version = "1", features = ["derive"] }
serde_json = "1"
symphonia = { version = "0.5", features = ["mp3", "isomp4", "aac"] }

[dev-dependencies]
tempfile = "3"
