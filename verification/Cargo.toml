[package]
name = "posix_mq"
version = "0.1.0"
edition = "2021"
publish = false

[dependencies]
nix = { version = "0.26", features = ["mqueue", "fs"] }
libc = "0.2"
