[package]
name = "dungeon_floor"
version = "0.1.0"
edition = "2021"
publish = false

[dependencies]
agb = "=0.9.2"
