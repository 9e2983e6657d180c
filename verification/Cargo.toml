[package]
name = "monolib"
version = "0.1.0"
edition = "2021"
publish = false

[dependencies]
chrono = "0.4"
libloading = "0.8"
