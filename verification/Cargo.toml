[package]
name = "chip8"
version = "0.1.0"
edition = "2021"
publish = false

[dependencies]
rand = "0.7"
pixels = "0.0.4"
winit = "0.22"
winit_input_helper = "0.7"
