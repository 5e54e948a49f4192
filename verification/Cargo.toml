[package]
name = "snake"
version = "0.1.0"
edition = "2021"
publish = false

[dependencies]
beepy-display = "*"
embedded-graphics = "0.8"
evdev = "0.12"
rand = "0.8"
tinybmp = "0.5"
