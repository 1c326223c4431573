[package]
name = "greetd"
version = "0.1.0"
edition = "2021"
publish = false

[dependencies]
nix = { version = "*", features = ["signal", "process", "poll", "fs", "ioctl", "term"] }
