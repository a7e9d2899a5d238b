[package]
name = "timertable"
version = "0.1.0"
edition = "2021"
publish = false

[dependencies]
chrono = { version = "0.4", features = ["serde"] }
iced = { version = "0.2", features = ["tokio", "palette"] }
palette = { version = "0.5", features = ["serializing"] }
pretty_env_logger = "0.4"
rodio = { version = "0.13", default-features = false, features = ["mp3"] }
serde = { version = "1", features = ["derive"] }
serde_json = "1"
