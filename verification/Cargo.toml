[package]
name = "sndio_host"
version = "0.1.0"
edition = "2021"
publish = false

[dependencies]
sndio-sys = "*"
thiserror = "1"
