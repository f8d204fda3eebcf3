[package]
name = "ftdi"
version = "0.1.0"
edition = "2021"
publish = false

[dependencies]
libftdi1-sys = "*"
thiserror = "1"
