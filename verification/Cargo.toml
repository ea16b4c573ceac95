[package]
name = "pi_labs"
version = "0.1.0"
edition = "2021"
publish = false

[dependencies]
rand = "0.8"
rpi_embedded = "*"
rppal = "*"
adxl345 = "*"
