[package]
name = "i2c_16x2"
version = "0.1.0"
edition = "2021"
publish = false

[dependencies]
i2cdev = "*"
