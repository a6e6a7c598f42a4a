[package]
name = "image_capture_core"
version = "0.1.0"
edition = "2021"
publish = false

[dependencies]
cocoa = "*"
core-graphics = "*"
libc = "*"
objc = "*"
