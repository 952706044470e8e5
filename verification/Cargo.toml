[package]
name = "slint-backend-kindle"
version = "0.1.0"
edition = "2021"
publish = false

[dependencies]
image = { version = "0.25", default-features = false, features = ["png", "jpeg"] }
libc = "0.2"
log = "0.4"
slint = { version = "=1.9.2", default-features = false, features = ["compat-1-2", "std", "renderer-software"] }
