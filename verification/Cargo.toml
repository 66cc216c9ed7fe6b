[package]
name = "vss"
version = "0.1.0"
edition = "2021"
publish = false

[dependencies]
image = { version = "0.23", default-features = false, features = ["png"] }
gfx = "0.18"
gfx_device_gl = "0.16"
clap = "2"
