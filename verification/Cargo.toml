[package]
name = "filock"
version = "0.1.0-alpha.1"
edition = "2021"
publish = false

[dependencies]
libc = "0.2"
