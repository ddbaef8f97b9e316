[package]
name = "bad_stl"
version = "0.1.0"
edition = "2021"
publish = false

[dependencies]
kiss3d = { version = "=0.35.0", default-features = false }
stl_io = "*"
