[package]
name = "limnus_core"
version = "0.1.0"
edition = "2021"
publish = false

[dependencies]
monotonic-time-rs = "*"
