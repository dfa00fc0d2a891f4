[package]
name = "rustmusic"
version = "0.1.0"
edition = "2021"
publish = false

[dependencies]
rand = "0.8"
walkdir = "2"
dirs = "5"
serde = { version = "1", features = ["derive"] }
toml = "0.8"
