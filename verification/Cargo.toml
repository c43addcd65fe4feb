[package]
name = "keyboard_layout"
version = "0.1.0"
edition = "2021"
publish = false

[dependencies]
ahash = { version = "=0.8.12", features = ["serde"] }
anyhow = "=1.0.104"
handlebars = "=6.4.4"
serde = { version = "=1.0.229", features = ["derive"] }
serde_yaml = "=0.9.34"
