[package]
name = "open_get_fonts"
version = "0.1.0"
edition = "2021"
publish = false

[dependencies]
font-kit = "*"
fontconfig = "*"
core-foundation = "*"
core-text = "*"
widestring = "*"
winapi = { version = "0.3", features = ["dwrite", "winerror", "minwindef"] }
neon = "*"
