[package]
name = "smelter"
version = "0.1.0"
edition = "2021"
publish = false

[dependencies]
syn = "0.9"
quote = "0.3"
