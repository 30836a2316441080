[package]
name = "sensehat"
version = "0.1.0"
edition = "2021"
publish = false

[dependencies]
byteorder = "1"
framebuffer = "*"
glob = "*"
i2cdev = "*"
libc = "0.2"
measurements = "*"
