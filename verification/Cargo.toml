[package]
name = "unix_experiments"
version = "0.1.0"
edition = "2021"
publish = false

[dependencies]
libc = "=0.2.191"
memmap2 = "=0.9.12"
nix = { version = "=0.31.3", features = ["fs"] }
