[package]
name = "mzr"
version = "0.1.0"
edition = "2021"
publish = false

[dependencies]
ipc-channel = "*"
nix = "0.26"
yansi = "*"
