[package]
name = "whisper"
version = "0.1.0"
edition = "2021"
publish = false

[dependencies]
rand = "*"
vst = "*"
log = "*"
simple-logging = "*"
log-panics = "*"
winit = "*"
