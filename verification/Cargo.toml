[package]
name = "duck_platformer"
version = "0.1.0"
edition = "2021"
publish = false

[dependencies]
macroquad = "*"
macroquad-platformer = "*"
macroquad-tiled = "*"
async-trait = "*"
