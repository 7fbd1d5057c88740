[package]
name = "rustyper"
version = "0.1.0"
edition = "2021"
publish = false

[dependencies]
ascii_utils = "*"
pancurses = "*"
