[package]
name = "numberpad"
version = "0.1.0"
edition = "2021"
publish = false

[dependencies]
evdev-rs = "*"
i2cdev = "*"
libc = "*"
thiserror = "*"
