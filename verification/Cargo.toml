[package]
name = "tunfd"
version = "0.1.0"
edition = "2021"
publish = false

[dependencies]
libc = "*"
log = "*"
netconfig = "*"
nix = { version = "*", features = ["ioctl"] }
tokio = { version = "*", features = ["net"] }
