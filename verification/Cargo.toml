[package]
name = "linuxkms_backend"
version = "0.1.0"
edition = "2021"
publish = false

[dependencies]
calloop = "*"
nix = { version = "*", features = ["fs"] }
libseat = "*"
i-slint-core = "*"
