[package]
name = "chip8_desktop"
version = "0.1.0"
edition = "2021"
publish = false

[dependencies]
chip8_core = { version = "=0.4.0", features = ["std"] }
macroquad = { version = "=0.4.16", default-features = false }
