[package]
name = "pacman"
version = "0.1.0"
edition = "2021"
publish = false

[dependencies]
glam = "0.30"
winit = "0.30"
