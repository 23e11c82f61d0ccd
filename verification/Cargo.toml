[package]
name = "gphoto"
version = "0.1.0"
edition = "2021"
publish = false

[dependencies]
gphoto2-sys = "*"
libc = "*"
