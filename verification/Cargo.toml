[package]
name = "synthizer"
version = "0.5.6"
edition = "2021"
publish = false

[dependencies]
lazy_static = "1"
