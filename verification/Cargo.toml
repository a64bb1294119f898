[package]
name = "vollmond"
version = "0.1.0"
edition = "2021"
publish = false

[dependencies]
macroquad = "=0.3.26"
quad-snd = "*"
