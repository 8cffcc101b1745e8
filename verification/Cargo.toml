[package]
name = "gameboy"
version = "0.1.0"
edition = "2021"
publish = false

[dependencies]
glium = "=0.36.0"
glutin = "=0.32.3"
image = { version = "=0.25.10", default-features = false }
log = "=0.4.34"
log-panics = "=2.1.0"
