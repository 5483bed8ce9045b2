[package]
name = "unicorn_hat_hd"
version = "0.1.0"
edition = "2021"
publish = false

[dependencies]
spidev = "*"
ansi_term = "*"
rgb = "*"
