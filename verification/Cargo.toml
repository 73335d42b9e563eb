[package]
name = "desktop-music-widget"
version = "1.0.5"
edition = "2021"
publish = false

[dependencies]
rand = "0.9"
toml = "*"
serde = { version = "1", features = ["derive"] }
lofty = "*"
rodio = "*"
