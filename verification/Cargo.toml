[package]
name = "chip8"
version = "0.1.0"
edition = "2021"
publish = false

[dependencies]
rand = "=0.10.3"
cursive = { version = "=0.21.1", features = ["ansi"] }
input = "=0.10.0"
libc = "=0.2.190"
