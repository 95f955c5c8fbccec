[package]
name = "ship_game"
version = "0.1.0"
edition = "2021"
publish = false

[dependencies]
sdl2 = { version = "0.35", features = ["image", "ttf"] }
specs = "0.20"
specs-derive = "0.4"
vector2d = "2.2"
