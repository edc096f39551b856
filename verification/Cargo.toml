[package]
name = "mkvm"
version = "0.4.0"
edition = "2021"
publish = false

[dependencies]
evdev = "0.13"
log = "0.4"
