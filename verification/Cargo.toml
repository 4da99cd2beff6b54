[package]
name = "hid_monitor"
version = "0.1.0"
edition = "2021"
publish = false

[dependencies]
core-foundation-sys = "*"
libc = "*"
runloop = "*"
