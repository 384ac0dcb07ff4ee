[package]
name = "rail_2d"
version = "0.1.0"
edition = "2021"
publish = false

[dependencies]
godot = "*"
