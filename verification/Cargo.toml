[package]
name = "lpc82x_hal"
version = "0.1.0"
edition = "2021"
publish = false

[dependencies]
nb = "*"
