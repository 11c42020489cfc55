[package]
name = "pebble"
version = "0.1.0"
edition = "2021"
publish = false

[dependencies]
debugless-unwrap = "*"
