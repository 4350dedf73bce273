[package]
name = "nes"
version = "0.1.0"
edition = "2021"
publish = false

[dependencies]
argh = "0.1"
byte-slice-cast = "1"
sdl2 = "0.35"
serde = { version = "1", features = ["derive"] }
serde-big-array = "0.5"
serde_json = "1"
