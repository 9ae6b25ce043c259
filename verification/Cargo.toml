[package]
name = "tic_tac_toe"
version = "0.1.0"
edition = "2021"

[dependencies]
sdl2 = { version = "*", features = ["gfx", "image", "ttf"] }
