[package]
name = "xcap"
version = "0.1.0"
edition = "2021"
publish = false

[dependencies]
core-graphics = "*"
image = "*"
log = "*"
objc2 = "*"
objc2-app-kit = "*"
objc2-foundation = "*"
