[package]
name = "chip8"
version = "0.1.0"
edition = "2021"
publish = false

[dependencies]
rand = "0.8"
sdl2 = "0.35"
color-eyre = "0.6"
derive_more = "0.99"
structopt = "0.3"
