[package]
name = "deadman"
version = "0.1.0"
edition = "2021"
publish = false

[dependencies]
rusb = "*"
libc = "*"
nix = { version = "*", features = ["user"] }
