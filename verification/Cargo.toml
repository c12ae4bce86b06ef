[package]
name = "text_deco"
version = "0.1.0"
edition = "2021"
publish = false

[dependencies]
kurbo = "*"
ttf-parser = "*"
