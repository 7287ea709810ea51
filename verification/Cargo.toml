[package]
name = "kiss_ui"
version = "0.1.0"
edition = "2021"
publish = false

[dependencies]
iup-sys = "*"
libc = "*"
