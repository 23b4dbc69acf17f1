[package]
name = "termagotchi"
version = "0.1.0"
edition = "2021"
publish = false

[dependencies]
argh = "*"
crossterm = "*"
directories = "*"
serde = { version = "*", features = ["derive"] }
serde_json = "*"
