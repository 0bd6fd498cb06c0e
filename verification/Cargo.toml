[package]
name = "rust_snake"
version = "0.1.0"
edition = "2021"
publish = false

[dependencies]
rand = "*"
crossterm = "*"
dirs = "*"
unicode-width = "*"
