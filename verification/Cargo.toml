[package]
name = "rust_noise"
version = "0.1.0"
edition = "2021"
publish = false

[dependencies]
eframe = "0.17"
image = "0.24"
