[package]
name = "world_column"
version = "0.1.0"
edition = "2021"
publish = false

[dependencies]
vek = "0.9"
noise = "0.5"
lazy_static = "1.4"
