[package]
name = "verbium"
version = "0.1.0"
edition = "2021"
publish = false

[dependencies]
portable-pty = "*"
parking_lot = "*"
