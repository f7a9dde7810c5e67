[package]
name = "watch_stl"
version = "0.1.0"
edition = "2021"
publish = false

[dependencies]
anyhow = "*"
kiss3d = "=0.35.0"
notify = "*"
stl_io = "*"
