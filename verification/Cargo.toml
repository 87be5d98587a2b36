[package]
name = "rusic"
version = "0.1.0"
edition = "2021"
publish = false

[dependencies]
crossbeam = "*"
simplemad = "*"
pulse-simple = "*"
