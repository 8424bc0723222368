[package]
name = "extendr-api"
version = "0.8.1"
edition = "2021"
publish = false

[dependencies]
libR-sys = "0.7.1"
once_cell = "1.21.4"
