[package]
name = "duat_catppuccin"
version = "0.1.0"
edition = "2021"
publish = false

[dependencies]
duat-core = "*"
