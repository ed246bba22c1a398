[package]
name = "pms_7003"
version = "0.1.0"
edition = "2021"
publish = false

[dependencies]
embedded-hal-nb = "1"
embedded-io-async = "0.6"
nb = "1"
