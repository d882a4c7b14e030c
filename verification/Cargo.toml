[package]
name = "hidpp"
version = "0.1.0"
edition = "2021"
publish = false

[dependencies]
log = "*"

[dependencies.nix]
version = "*"
features = ["ioctl"]
