[package]
name = "juice"
version = "0.1.0"
edition = "2021"
publish = false

[dependencies]
clang-sys = { version = "*", features = ["runtime"] }
libc = "*"
