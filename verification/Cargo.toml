[package]
name = "audioforge"
version = "0.1.0"
edition = "2021"
publish = false

[dependencies]
serde = { version = "1", features = ["derive"] }
serde_json = "1"
quick-xml = { version = "*", features = ["serialize"] }
ffmpeg-next = "*"
