[package]
name = "ftdi_embedded_hal"
version = "0.1.0"
edition = "2021"
publish = false

[dependencies]
ftdi-mpsse = "*"
embedded-hal = "1"
ftdi = "*"
libftd2xx = "*"
