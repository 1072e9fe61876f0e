[package]
name = "duration_decompose"
version = "0.1.0"
edition = "2021"
publish = false

[dependencies]
chrono = "*"
chrono-humanize = "*"
hifitime = "*"
