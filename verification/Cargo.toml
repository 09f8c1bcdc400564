[package]
name = "rogcat"
version = "0.3.0"
edition = "2021"
publish = false

[dependencies]
regex = "1"
time = "0.1"
serial = "0.4"
