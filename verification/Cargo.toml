[package]
name = "game_of_life"
version = "0.1.0"
edition = "2021"

[dependencies]
sdl2 = "=0.38.0"
