[package]
name = "gblite"
version = "0.1.0"
edition = "2021"
publish = false

[dependencies]
chrono = "*"
ctrlc = "*"
num = "*"
sdl2 = "*"
