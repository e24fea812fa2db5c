[package]
name = "shell_windows"
version = "0.1.0"
edition = "2021"
publish = false

[dependencies]
iced = { version = "0.12", default-features = false }
iced_core = "0.12"
iced_graphics = "0.12"
layershellev = "*"
sessionlockev = "*"
