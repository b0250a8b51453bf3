[package]
name = "shellect"
version = "0.1.0"
edition = "2021"
publish = false

[dependencies]
anyhow = "1"
crossterm = "*"
hex_color = { version = "*", features = ["serde"] }
serde = { version = "1", features = ["derive"] }
toml = "*"
