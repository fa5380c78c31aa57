[package]
name = "dynblas"
version = "0.1.0"
edition = "2021"

[dependencies]
dylib = "*"
rustc-serialize = "0.3"
