[package]
name = "hourly_music"
version = "0.1.0"
edition = "2021"
publish = false

[dependencies]
chrono = "0.4"
parking_lot = "0.12"
rodio = "0.19"
serde = { version = "1", features = ["derive"] }
toml = "0.8"
