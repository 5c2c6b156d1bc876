[package]
name = "ugbe"
version = "0.1.0"
edition = "2021"
publish = false

[dependencies]
anyhow = "1"
blip_buf = "*"
crossbeam-channel = "0.5"
sdl2 = "*"
thiserror = "1"
