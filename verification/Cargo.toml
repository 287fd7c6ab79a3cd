[package]
name = "aac"
version = "0.1.0"
edition = "2021"
publish = false

[dependencies]
fdk-aac-sys = "=0.5.0"
