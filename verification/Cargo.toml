[package]
name = "knet"
version = "0.1.0"
edition = "2021"
publish = false

[dependencies]
heapless = "0.8"
libc = "0.2"
