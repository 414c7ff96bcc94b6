[package]
name = "adxl345_hal"
version = "0.1.0"
edition = "2021"
publish = false

[dependencies]
arrayvec = "0.7"
embedded-hal = "0.2"
nb = "1"
