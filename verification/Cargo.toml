[package]
name = "daylight"
version = "0.1.0"
edition = "2021"
publish = false

[dependencies]
bitbar = "*"
chrono = "0.4"
circadia = "*"
