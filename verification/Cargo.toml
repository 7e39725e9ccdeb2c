[package]
name = "serial_arbiter"
version = "0.1.0"
edition = "2021"
publish = false

[dependencies]
crossbeam = "*"
nix = { version = "=0.30.1", features = ["poll", "fs"] }
termios = "*"
