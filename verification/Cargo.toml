[package]
name = "rovr"
version = "0.1.0"
edition = "2021"
publish = false

[dependencies]
bitflags = "*"
gl = "*"
glutin = "*"
kernel32-sys = "*"
libc = "*"
winapi = "*"
