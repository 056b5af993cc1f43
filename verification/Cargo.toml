[package]
name = "parterm"
version = "0.1.0"
edition = "2021"
publish = false

[dependencies]
nix = "0.26"
termion = "2"
libc = "0.2"
signal-hook = "0.3"
