[package]
name = "input"
version = "0.1.0"
edition = "2021"
publish = false

[dependencies]
libc = "=0.2.191"
log = "=0.4.34"
io-lifetimes = "=1.0.11"
