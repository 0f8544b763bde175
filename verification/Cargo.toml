[package]
name = "honeybee"
version = "0.1.0"
edition = "2021"
publish = false

[dependencies]
failure = "=0.1.8"
fallible-iterator = "0.2"
postgres = "0.17"
