[package]
name = "kbar"
version = "0.1.0"
edition = "2021"
publish = false

[dependencies]
better_term = "*"
crossterm = "*"
terminal_size = "*"
